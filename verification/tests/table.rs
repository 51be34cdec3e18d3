use justrng::perm::PermMix;
use justrng::vector::{IVec2, IVec3, IVec4, UVec2, UVec3, UVec4};
use justrng::Permutation;

fn identity() -> [u8; 256] {
    let mut bytes = [0u8; 256];
    for (i, byte) in bytes.iter_mut().enumerate() {
        *byte = i as u8;
    }
    bytes
}

fn reversed() -> [u8; 256] {
    let mut bytes = [0u8; 256];
    for (i, byte) in bytes.iter_mut().enumerate() {
        *byte = 255 - i as u8;
    }
    bytes
}

#[test]
fn golden_table_of_seed_1() {
    let perm = Permutation::with_seed(1);
    assert_eq!(
        &perm.as_bytes()[..16],
        &[227, 64, 0, 176, 133, 33, 97, 185, 41, 126, 61, 167, 48, 63, 20, 1]
    );
    assert_eq!(perm.as_bytes()[255], 234);
    let zero = Permutation::with_seed(0);
    assert_eq!(&zero.as_bytes()[..8], &[142, 231, 129, 76, 222, 31, 41, 162]);
}

#[test]
fn every_seed_gives_a_permutation() {
    for seed in (0..200u64).chain([u64::MAX, u64::MAX - 1, 1 << 63]) {
        let perm = Permutation::with_seed(seed);
        let bytes = perm.as_bytes();
        assert_eq!(bytes.len(), 256);
        let mut seen = [0u32; 256];
        for &byte in bytes {
            seen[byte as usize] += 1;
        }
        assert!(seen.iter().all(|&count| count == 1));
    }
}

#[test]
fn the_upper_half_repeats_the_lower() {
    for seed in 0..50u64 {
        let perm = Permutation::with_seed(seed);
        let padded = perm.as_bytes_padded();
        assert_eq!(padded.len(), 512);
        for i in 0..256 {
            assert_eq!(padded[i], padded[i + 256]);
        }
        assert_eq!(&padded[..256], perm.as_bytes());
    }
    let perm = Permutation::from_bytes(reversed());
    let padded = perm.as_bytes_padded();
    for i in 0..256 {
        assert_eq!(padded[i], 255 - i as u8);
        assert_eq!(padded[i + 256], 255 - i as u8);
    }
}

#[test]
fn mixing_the_origin_follows_the_table_three_deep() {
    let perm = Permutation::with_seed(1);
    let table = perm.as_bytes_padded();
    let expected = table[table[table[0] as usize] as usize];
    assert_eq!(perm.mix(IVec3 { x: 0, y: 0, z: 0 }), expected);
    assert_eq!(expected, 46);
}

#[test]
fn from_bytes_keeps_the_bytes() {
    let perm = Permutation::from_bytes(reversed());
    assert_eq!(perm.as_bytes(), &reversed()[..]);
    let same = Permutation::from_bytes(identity());
    assert_eq!(same.as_bytes(), &identity()[..]);
    let mut odd = [7u8; 256];
    odd[3] = 9;
    let unchecked = Permutation::from_bytes(odd);
    assert_eq!(unchecked.as_bytes(), &odd[..]);
    assert_eq!(unchecked.as_bytes_padded()[259], 9);
}

#[test]
fn from_bytes_padded_takes_the_table_as_it_is() {
    let mut bytes = [0u8; 512];
    for (i, byte) in bytes.iter_mut().enumerate() {
        *byte = (i / 2) as u8;
    }
    let perm = Permutation::from_bytes_padded(bytes);
    assert_eq!(perm.as_bytes_padded(), &bytes);
    assert_eq!(perm.as_bytes(), &bytes[..256]);
    assert_eq!(perm.as_bytes_padded()[256], 128);
    let seeded = Permutation::with_seed(5);
    let again = Permutation::from_bytes_padded(*seeded.as_bytes_padded());
    assert_eq!(again.as_bytes_padded(), seeded.as_bytes_padded());
}

#[test]
fn a_table_of_any_bytes_mixes_in_bounds() {
    let perm = Permutation::from_bytes_padded([255u8; 512]);
    assert_eq!(perm.mix(u32::MAX), 255);
    assert_eq!(perm.mix(IVec4 { x: -1, y: -1, z: -1, w: -1 }), 255);
    assert_eq!(perm.mix(255u8), 255);
    assert_eq!(perm.mix(u16::MAX), 255);
}

#[test]
fn golden_scalar_mixes() {
    let perm = Permutation::with_seed(1);
    assert_eq!(perm.mix(0x010203u32), 144);
    assert_eq!(perm.mix(u32::MAX), 20);
    assert_eq!(perm.mix(-1i32), 20);
    assert_eq!(perm.mix(-123456i32), 82);
    assert_eq!(perm.mix(0x1122334455667788u64), 80);
    assert_eq!(perm.mix(-2i64), 63);
    assert_eq!(perm.mix(0x010203usize), 144);
    assert_eq!(perm.mix(-70000isize), 158);
    assert_eq!(perm.mix(0x0102u16), 64);
    assert_eq!(perm.mix(-2i16), 114);
    assert_eq!(perm.mix(u16::MAX), 15);
    assert_eq!(perm.mix(7u8), 185);
    assert_eq!(perm.mix(255u8), 234);
    assert_eq!(perm.mix(-1i8), 234);
    assert_eq!(perm.mix(-128i8), 243);
}

#[test]
fn scalars_fold_their_low_bytes() {
    let perm = Permutation::with_seed(9);
    let t = perm.as_bytes_padded();
    let at = |i: usize| t[i] as usize;
    assert_eq!(perm.mix(0xAABBCCDDu32) as usize, at(0xDD + at(0xCC + at(0xBB))));
    assert_eq!(perm.mix(0x11223344AABBCCDDu64) as usize, at(0xDD + at(0xCC + at(0xBB))));
    assert_eq!(perm.mix(0xBEEFu16) as usize, at(0xBE + at(0xEF)));
    assert_eq!(perm.mix(0x5Au8) as usize, at(0x5A));
    assert_eq!(perm.mix(-1i64) as usize, at(0xFF + at(0xFF + at(0xFF))));
    assert_eq!(perm.mix(-2i16) as usize, at(0xFF + at(0xFE)));
}

#[test]
fn scalars_that_agree_in_their_low_bytes_mix_alike() {
    let perm = Permutation::with_seed(3);
    assert_eq!(perm.mix(0x00ABCDEFu32), perm.mix(0xFFABCDEFu32));
    assert_eq!(perm.mix(0x00ABCDEFu32), perm.mix(0x7700ABCDEFu64));
    assert_eq!(perm.mix(-1i32), perm.mix(0x00FFFFFFu32));
    assert_eq!(perm.mix(-1i64), perm.mix(-1isize));
    assert_eq!(perm.mix(-1i16), perm.mix(u16::MAX));
    assert_eq!(perm.mix(-1i8), perm.mix(u8::MAX));
}

#[test]
fn golden_vector_mixes() {
    let perm = Permutation::with_seed(1);
    assert_eq!(perm.mix(IVec3 { x: -1, y: 245, z: 3 }), 245);
    assert_eq!(perm.mix(IVec3 { x: 3, y: 99, z: 21 }), 182);
    assert_eq!(perm.mix(IVec3 { x: 94, y: -21, z: 33 }), 165);
    assert_eq!(perm.mix(IVec3 { x: 27, y: -9, z: 41 }), 110);
    assert_eq!(perm.mix(UVec3 { x: 1000, y: 2000, z: 3000 }), 232);
    assert_eq!(perm.mix(IVec2 { x: 1, y: 2 }), 64);
    assert_eq!(perm.mix(IVec2 { x: -300, y: 70000 }), 184);
    assert_eq!(perm.mix(UVec2 { x: 300, y: 4000000000 }), 1);
    assert_eq!(perm.mix(IVec4 { x: 1, y: 2, z: 3, w: 4 }), 75);
    assert_eq!(perm.mix(IVec4 { x: -1, y: -2, z: -3, w: -4 }), 100);
    assert_eq!(perm.mix(UVec4 { x: 256, y: 257, z: 258, w: 259 }), 101);
}

#[test]
fn mixing_is_stateless() {
    let perm = Permutation::with_seed(21);
    let before = *perm.as_bytes_padded();
    let v = IVec3 { x: 27, y: -9, z: 41 };
    let first = perm.mix(v);
    let _ = perm.mix(IVec3 { x: 1, y: 2, z: 3 });
    let _ = perm.mix(77u64);
    let second = perm.mix(v);
    assert_eq!(first, second);
    assert_eq!(perm.as_bytes_padded(), &before);
    let copy = perm.clone();
    assert_eq!(copy.mix(v), first);
}

#[test]
fn coordinates_wrap_at_256_on_every_axis() {
    let perm = Permutation::with_seed(4);
    let base = IVec3 { x: 5, y: -7, z: 200 };
    let far = IVec3 { x: 5 + 256, y: -7 - 512, z: 200 - 256 * 1000 };
    assert_eq!(perm.mix(base), perm.mix(far));
    assert_eq!(perm.mix(UVec2 { x: 1, y: 2 }), perm.mix(UVec2 { x: 257, y: 0xFFFF_FF02 }));
    assert_eq!(
        perm.mix(IVec4 { x: 0, y: 0, z: 0, w: 0 }),
        perm.mix(IVec4 { x: 256, y: -256, z: i32::MIN, w: 65536 })
    );
}

#[test]
fn perm_mix_reads_a_bare_table() {
    let mut table = [0u8; 512];
    for (i, byte) in table.iter_mut().enumerate() {
        *byte = (i as u8).wrapping_mul(3);
    }
    assert_eq!(5u8.perm_mix(&table), 15);
    assert_eq!(IVec2 { x: 1, y: 2 }.perm_mix(&table), 21);
    assert_eq!(0x0201u16.perm_mix(&table), 15);
    assert_eq!(0x030201u32.perm_mix(&table), 102);
}
