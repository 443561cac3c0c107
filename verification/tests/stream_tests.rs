use leap_spigot::digit_char;
use leap_spigot::Constant;
use leap_spigot::DualStream;
use leap_spigot::SpigotConfig;
use leap_spigot::StreamError;

// ── digit generation ─────────────────────────────────────────────────

#[test]
fn pi_decimal_digits() {
    let d = Constant::Pi.digits_in_base(10, 15);
    assert_eq!(d, vec![3, 1, 4, 1, 5, 9, 2, 6, 5, 3, 5, 8, 9, 7, 9]);
}

#[test]
fn pi_hex_digits() {
    // pi = 3.243F6A88... in hexadecimal.
    let d = Constant::Pi.digits_in_base(16, 9);
    assert_eq!(d, vec![3, 2, 4, 3, 15, 6, 10, 8, 8]);
}

#[test]
fn pi_binary_digits() {
    // pi = 11.00100100001111... in binary.
    let d = Constant::Pi.digits_in_base(2, 10);
    assert_eq!(d, vec![1, 1, 0, 0, 1, 0, 0, 1, 0, 0]);
}

#[test]
fn e_decimal_digits() {
    let d = Constant::E.digits_in_base(10, 12);
    assert_eq!(d, vec![2, 7, 1, 8, 2, 8, 1, 8, 2, 8, 4, 5]);
}

#[test]
fn e_binary_digits() {
    // e = 10.1011011111100001... in binary.
    let d = Constant::E.digits_in_base(2, 12);
    assert_eq!(d, vec![1, 0, 1, 0, 1, 1, 0, 1, 1, 1, 1, 1]);
}

#[test]
fn ln2_decimal_digits() {
    // ln 2 = 0.693147180559945...
    let d = Constant::Ln2.digits_in_base(10, 12);
    assert_eq!(d, vec![0, 6, 9, 3, 1, 4, 7, 1, 8, 0, 5, 5]);
}

#[test]
fn liouville_digits() {
    // Ones exactly at the factorial positions 1, 2, 6, 24.
    let d = Constant::Liouville.digits_in_base(10, 26);
    let mut expected = vec![0u8; 26];
    expected[1] = 1;
    expected[2] = 1;
    expected[6] = 1;
    expected[24] = 1;
    assert_eq!(d, expected);
}

#[test]
fn champernowne_decimal_digits() {
    let d = Constant::Champernowne.digits_in_base(10, 13);
    assert_eq!(d, vec![0, 1, 2, 3, 4, 5, 6, 7, 8, 9, 1, 0, 1]);
}

#[test]
fn champernowne_binary_digits() {
    // 1, 10, 11, 100, ... concatenated.
    let d = Constant::Champernowne.digits_in_base(2, 10);
    assert_eq!(d, vec![0, 1, 1, 0, 1, 1, 1, 0, 0, 1]);
}

#[test]
fn thue_morse_digits() {
    let d = Constant::ThueMorse.digits_in_base(10, 9);
    assert_eq!(d, vec![0, 0, 1, 1, 0, 1, 0, 0, 1]);
}

#[test]
fn digit_char_table() {
    assert_eq!(digit_char(0), '0');
    assert_eq!(digit_char(9), '9');
    assert_eq!(digit_char(10), 'a');
    assert_eq!(digit_char(35), 'z');
}

#[test]
fn constant_names() {
    assert_eq!(Constant::all().len(), 6);
    assert_eq!(Constant::Pi.name(), "pi");
    assert!(Constant::E.approx().starts_with("2.71828"));
}

// ── configuration errors ─────────────────────────────────────────────

#[test]
fn config_rejects_bad_base() {
    assert_eq!(SpigotConfig::try_new(Constant::Pi, 1), Err(StreamError::InvalidBase));
    assert_eq!(SpigotConfig::try_new(Constant::Pi, 37), Err(StreamError::InvalidBase));
    let ok = SpigotConfig::try_new(Constant::Pi, 36).unwrap();
    assert_eq!(ok.base, 36);
}

// ── zip advancement ──────────────────────────────────────────────────

#[test]
fn first_zip_pair_is_pi_e() {
    // pi's first digit against e's first digit.
    let mut ds = DualStream::new(Constant::Pi, Constant::E);
    let pairs = ds.zip_take(1);
    assert_eq!(pairs, vec![(3, 2)]);
}

#[test]
fn zip_take_advances_both_sides() {
    let mut ds = DualStream::new(Constant::Pi, Constant::E);
    let pairs = ds.zip_take(10);
    assert_eq!(pairs.len(), 10);
    assert_eq!(ds.left_pos(), 10);
    assert_eq!(ds.right_pos(), 10);
}

#[test]
fn zip_take_equals_repeated_zip_next() {
    let mut a = DualStream::new(Constant::Pi, Constant::E);
    let mut b = DualStream::new(Constant::Pi, Constant::E);
    let pairs = a.zip_take(25);
    let mut singles = Vec::new();
    for _ in 0..25 {
        singles.push(b.zip_next().unwrap());
    }
    assert_eq!(pairs, singles);
    assert_eq!(a.left_pos(), b.left_pos());
    assert_eq!(a.right_pos(), b.right_pos());
}

#[test]
fn zip_take_deterministic_across_streams() {
    let cfg_l = SpigotConfig::new(Constant::Pi, 16);
    let cfg_r = SpigotConfig::new(Constant::Champernowne, 8);
    let mut a = DualStream::from_configs(cfg_l, cfg_r);
    let mut b = DualStream::from_configs(cfg_l, cfg_r);
    assert_eq!(a.zip_take(40), b.zip_take(40));
}

#[test]
fn after_drop_zip_next_pairs_offset_digits() {
    // Left pi in hexadecimal advanced by five, right e in binary at the
    // start: the next pair holds pi-hex digit five and e-bin digit zero.
    let mut ds = DualStream::from_configs(
        SpigotConfig::new(Constant::Pi, 16),
        SpigotConfig::new(Constant::E, 2),
    );
    ds.left().drop(5);
    assert_eq!(ds.zip_next(), Some((6, 1)));
}

#[test]
fn side_ops_are_independent() {
    let mut ds = DualStream::new(Constant::Pi, Constant::E);
    ds.left().drop(7);
    assert_eq!(ds.left_pos(), 7);
    assert_eq!(ds.right_pos(), 0);
    let taken = ds.right().take(4);
    assert_eq!(taken, vec![2, 7, 1, 8]);
    assert_eq!(ds.left_pos(), 7);
    assert_eq!(ds.right_pos(), 4);
}

#[test]
fn cursor_next_streams_digits() {
    let mut ds = DualStream::new(Constant::Pi, Constant::E);
    assert_eq!(ds.left().next(), Some(3));
    assert_eq!(ds.left().next(), Some(1));
    assert_eq!(ds.left().next(), Some(4));
    assert_eq!(ds.left_pos(), 3);
}

// ── twist ────────────────────────────────────────────────────────────

#[test]
fn twist_swaps_sides_whole() {
    let mut ds = DualStream::from_configs(
        SpigotConfig::new(Constant::Pi, 16),
        SpigotConfig::new(Constant::E, 2),
    );
    ds.left().drop(3);
    ds.twist();
    assert_eq!(ds.left_constant(), Constant::E);
    assert_eq!(ds.left_base(), 2);
    assert_eq!(ds.left_pos(), 0);
    assert_eq!(ds.right_constant(), Constant::Pi);
    assert_eq!(ds.right_base(), 16);
    assert_eq!(ds.right_pos(), 3);
}

#[test]
fn twist_twice_restores_exactly() {
    let mut ds = DualStream::from_configs(
        SpigotConfig::new(Constant::Ln2, 12),
        SpigotConfig::new(Constant::ThueMorse, 2),
    );
    ds.left().drop(9);
    ds.right().drop(2);
    ds.twist();
    ds.twist();
    assert_eq!(ds.left_constant(), Constant::Ln2);
    assert_eq!(ds.left_base(), 12);
    assert_eq!(ds.left_pos(), 9);
    assert_eq!(ds.right_constant(), Constant::ThueMorse);
    assert_eq!(ds.right_pos(), 2);
    // The swapped sides keep streaming from their own positions.
    assert_eq!(ds.left().next(), Some(Constant::Ln2.digits_in_base(12, 10)[9]));
}

// ── snip ─────────────────────────────────────────────────────────────

#[test]
fn snip_never_moves_live_cursors() {
    let mut ds = DualStream::from_configs(
        SpigotConfig::new(Constant::Pi, 16),
        SpigotConfig::new(Constant::E, 2),
    );
    ds.left().drop(10);
    ds.snip("a", 0, 8).unwrap();
    ds.snip("b", 4, 12).unwrap();
    assert_eq!(ds.left_pos(), 10);
    assert_eq!(ds.right_pos(), 0);
}

#[test]
fn snip_is_idempotent() {
    let mut ds = DualStream::new(Constant::Pi, Constant::E);
    ds.snip("w", 2, 9).unwrap();
    let first = ds.get_snippet("w").unwrap();
    ds.snip("w", 2, 9).unwrap();
    let second = ds.get_snippet("w").unwrap();
    assert_eq!(first, second);
    assert_eq!(first.len(), 7);
}

#[test]
fn snip_captures_absolute_range() {
    let mut ds = DualStream::new(Constant::Pi, Constant::E);
    ds.snip("head", 0, 4).unwrap();
    let s = ds.get_snippet("head").unwrap();
    assert_eq!(s, vec![(3, 2), (1, 7), (4, 1), (1, 8)]);
}

#[test]
fn snip_rejects_backwards_range() {
    let mut ds = DualStream::new(Constant::Pi, Constant::E);
    assert_eq!(ds.snip("bad", 5, 2), Err(StreamError::InvalidRange));
    assert!(ds.get_snippet("bad").is_none());
    assert_eq!(ds.snippet_keys().len(), 0);
}

#[test]
fn snip_overwrites_same_name() {
    let mut ds = DualStream::new(Constant::Pi, Constant::E);
    ds.snip("s", 0, 3).unwrap();
    ds.snip("s", 0, 5).unwrap();
    assert_eq!(ds.get_snippet("s").unwrap().len(), 5);
    assert_eq!(ds.snippet_keys().len(), 1);
}

#[test]
fn snippet_keys_in_insertion_order() {
    let mut ds = DualStream::new(Constant::Pi, Constant::E);
    ds.snip("one", 0, 2).unwrap();
    ds.snip("two", 1, 3).unwrap();
    ds.snip("three", 2, 4).unwrap();
    let keys = ds.snippet_keys();
    assert_eq!(keys, vec!["one".to_string(), "two".to_string(), "three".to_string()]);
}

#[test]
fn get_snippet_missing_is_none() {
    let ds = DualStream::new(Constant::Pi, Constant::E);
    assert!(ds.get_snippet("nothing").is_none());
}

#[test]
fn zip_fold_matches_zip_take() {
    let mut a = DualStream::new(Constant::Pi, Constant::E);
    let mut b = DualStream::new(Constant::Pi, Constant::E);
    let (ls, rs) =
        a.zip_fold_n(12, (0u32, 0u32), |(la, ra), (l, r)| (la + l as u32, ra + r as u32));
    let pairs = b.zip_take(12);
    let mut el = 0u32;
    let mut er = 0u32;
    for (l, r) in pairs {
        el += l as u32;
        er += r as u32;
    }
    assert_eq!((ls, rs), (el, er));
    assert_eq!(a.left_pos(), 12);
    assert_eq!(a.right_pos(), 12);
}
