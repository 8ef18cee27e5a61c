use paging::arch::TestArch;
use paging::rng::{Rng, FNV_OFFSET, FNV_PRIME};

fn draw_from(state: u128) -> (u64, u128) {
    let mut x = state as u64;
    let y = (state >> 64) as u64;
    x ^= x << 23;
    x ^= x >> 17;
    x ^= y;
    (x, (y as u128) | ((x.wrapping_add(y) as u128) << 64))
}

#[test]
fn feed_is_fnv1a() {
    let mut rng = Rng::new();
    rng.feed(&[0x61]);
    let expected = (FNV_OFFSET ^ 0x61).wrapping_mul(FNV_PRIME);
    // the 128-bit FNV-1a hash of "a"
    assert_eq!(expected, 0xd228cb696f1a8caf78912b704e4a8964);
    let mut other = Rng::new();
    other.feed(&[]);
    other.feed(b"a");
    assert_eq!(rng.next(), other.next());
    let (x, _) = draw_from(expected);
    let mut fed = Rng::new();
    fed.feed(b"a");
    assert_eq!(fed.next(), Some(x));
    let mut fresh = Rng::new();
    assert_ne!(fresh.next(), Some(x));
}

#[test]
fn draws_follow_xorshiftr128_plus() {
    let mut rng = Rng::new();
    rng.feed(b"kernel");
    let mut state = FNV_OFFSET;
    for b in b"kernel" {
        state = (state ^ *b as u128).wrapping_mul(FNV_PRIME);
    }
    for _ in 0..5 {
        let (x, next) = draw_from(state);
        assert_eq!(rng.next(), Some(x));
        state = next;
    }
}

#[test]
fn from_test_arch_absorbs_zero_word() {
    let mut a = Rng::from_arch::<TestArch>();
    let mut b = Rng::new();
    b.feed(&[0u8; 8]);
    assert_eq!(a.next(), b.next());
}
