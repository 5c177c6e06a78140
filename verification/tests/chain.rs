use sparrow::chain::{ChainResolver, ChainStatus};

/// A chain of length exactly 2 performs exactly one read: the sum of the
/// two offsets is read once and a nonzero value is the final address.
#[test]
fn two_offsets_resolve_in_one_read() {
    let mut r = ChainResolver::new(vec![0x1000, 0x20]);
    assert_eq!(r.pending_read(), Some(0x1020));
    r.supply(0xdead_0000);
    assert_eq!(r.status(), ChainStatus::Resolved(0xdead_0000));
    assert_eq!(r.pending_read(), None);
}

/// A chain of length 2 whose single read returns zero is "not found",
/// not an error.
#[test]
fn two_offsets_zero_is_not_found() {
    let mut r = ChainResolver::new(vec![0x1000, 0x20]);
    r.supply(0);
    assert_eq!(r.status(), ChainStatus::NotFound);
    assert_eq!(r.pending_read(), None);
}

/// A chain of N offsets takes exactly N - 1 reads when every value is
/// nonzero, and each read's address is the previous value plus the next
/// offset.
#[test]
fn five_offsets_walk_four_reads() {
    let mut r = ChainResolver::new(vec![0x40_0000, 0x385790, 0x00, 0x78, 0xb8]);
    let mut reads: usize = 0;

    assert_eq!(r.pending_read(), Some(0x40_0000 + 0x385790));
    r.supply(0x5000);
    reads += 1;
    assert_eq!(r.pending_read(), Some(0x5000 + 0x00));
    r.supply(0x6000);
    reads += 1;
    assert_eq!(r.pending_read(), Some(0x6000 + 0x78));
    r.supply(0x7000);
    reads += 1;
    assert_eq!(r.pending_read(), Some(0x7000 + 0xb8));
    r.supply(0x8000);
    reads += 1;

    assert_eq!(reads, 4);
    assert_eq!(r.status(), ChainStatus::Resolved(0x8000));
    assert_eq!(r.pending_read(), None);
}

/// Resolution short-circuits the moment an intermediate dereference
/// yields zero: the resolver reports "not found" and never issues a read
/// past that point.
#[test]
fn intermediate_zero_short_circuits() {
    let mut r = ChainResolver::new(vec![0x40_0000, 0x385790, 0x00, 0x78, 0xb8]);
    r.supply(0x5000);
    r.supply(0); // second read finds the structure absent
    assert_eq!(r.status(), ChainStatus::NotFound);
    assert_eq!(r.pending_read(), None); // reads 3 and 4 are never issued
}

/// A zero on the final read also means "not found".
#[test]
fn final_zero_is_not_found() {
    let mut r = ChainResolver::new(vec![0x10, 0x10, 0x8]);
    r.supply(0x2000);
    r.supply(0);
    assert_eq!(r.status(), ChainStatus::NotFound);
}

/// Address arithmetic wraps at the machine word instead of failing.
#[test]
fn addresses_wrap() {
    let mut r = ChainResolver::new(vec![usize::MAX, 2, 0x10]);
    assert_eq!(r.pending_read(), Some(1));
    r.supply(usize::MAX - 0xf);
    assert_eq!(r.pending_read(), Some(0)); // (MAX - 0xf) + 0x10 wraps to 0
    r.supply(0x42);
    assert_eq!(r.status(), ChainStatus::Resolved(0x42));
}
