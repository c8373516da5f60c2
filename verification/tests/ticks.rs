use coremark_runner::clock::{signed_ticks, wrap_millis};

#[test]
fn small_counts_are_kept() {
    assert_eq!(wrap_millis(0), 0);
    assert_eq!(wrap_millis(1), 1);
    assert_eq!(wrap_millis(15_000), 15_000);
    assert_eq!(wrap_millis(4_294_967_295), 4_294_967_295);
}

#[test]
fn counts_wrap_at_two_to_the_32() {
    assert_eq!(wrap_millis(4_294_967_296), 0);
    assert_eq!(wrap_millis(4_294_967_297), 1);
    assert_eq!(wrap_millis(3 * 4_294_967_296 + 77), 77);
    assert_eq!(wrap_millis(u128::from(u64::MAX)), u32::MAX);
    assert_eq!(wrap_millis(u128::MAX), u32::MAX);
    assert_eq!(wrap_millis(u128::MAX - 4_294_967_295), 0);
}

#[test]
fn wrapping_is_the_remainder() {
    let mut millis: u128 = 1;
    for _ in 0..127 {
        for near in [millis - 1, millis, millis + 1] {
            assert_eq!(u128::from(wrap_millis(near)), near % 4_294_967_296);
        }
        millis *= 2;
    }
}

#[test]
fn signed_ticks_below_half_are_kept() {
    assert_eq!(signed_ticks(0), 0);
    assert_eq!(signed_ticks(1), 1);
    assert_eq!(signed_ticks(15_000), 15_000);
    assert_eq!(signed_ticks(0x7fff_ffff), i32::MAX);
}

#[test]
fn signed_ticks_from_half_on_are_negative() {
    assert_eq!(signed_ticks(0x8000_0000), i32::MIN);
    assert_eq!(signed_ticks(0x8000_0001), i32::MIN + 1);
    assert_eq!(signed_ticks(u32::MAX - 1), -2);
    assert_eq!(signed_ticks(u32::MAX), -1);
}

#[test]
fn signed_ticks_keep_the_bits() {
    let mut ticks: u32 = 1;
    for _ in 0..31 {
        for near in [ticks - 1, ticks, ticks + 1] {
            assert_eq!(signed_ticks(near).to_ne_bytes(), near.to_ne_bytes());
        }
        ticks *= 2;
    }
    assert_eq!(signed_ticks(u32::MAX).to_ne_bytes(), u32::MAX.to_ne_bytes());
}

#[test]
fn the_difference_of_two_readings_is_the_time_that_passed() {
    let earlier: u128 = 4_294_967_296 - 10;
    let later: u128 = 4_294_967_296 + 25;
    assert_eq!(wrap_millis(later).wrapping_sub(wrap_millis(earlier)), 35);
    let earlier: u128 = 7 * 4_294_967_296 + 4_000_000_000;
    let later: u128 = 9 * 4_294_967_296 + 5;
    assert_eq!(
        u128::from(wrap_millis(later).wrapping_sub(wrap_millis(earlier))),
        (later - earlier) % 4_294_967_296
    );
}
