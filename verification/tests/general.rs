use z32::{encode, encode_full_bytes, ALPHABET};

fn sample_buffers() -> Vec<Vec<u8>> {
    let mut all: Vec<Vec<u8>> = vec![
        vec![],
        vec![0x00],
        vec![0xff],
        vec![0x80],
        vec![0x01, 0x80],
        vec![0xa5, 0x3c],
        vec![0x12, 0x34, 0x56, 0x78, 0x9a],
        vec![0xde, 0xad, 0xbe, 0xef, 0x00, 0x01, 0x02],
        "The quick brown fox jumps over the lazy dog.".as_bytes().to_vec(),
    ];
    let mut ramp: Vec<u8> = Vec::new();
    let mut x: u8 = 7;
    for _ in 0..23 {
        x = x.wrapping_mul(37).wrapping_add(11);
        ramp.push(x);
    }
    all.push(ramp);
    all
}

fn bit(buf: &[u8], k: usize) -> usize {
    if k < 8 * buf.len() {
        ((buf[k / 8] >> (7 - k % 8)) & 1) as usize
    } else {
        0
    }
}

fn spelled_out(buf: &[u8], bits: usize) -> String {
    let symbols: Vec<char> = ALPHABET.chars().collect();
    let mut text = String::new();
    let mut p = 0;
    while p < bits {
        let v = 16 * bit(buf, p)
            + 8 * bit(buf, p + 1)
            + 4 * bit(buf, p + 2)
            + 2 * bit(buf, p + 3)
            + bit(buf, p + 4);
        text.push(symbols[v]);
        p += 5;
    }
    text
}

#[test]
fn length_is_bits_over_five_rounded_up() {
    for buf in sample_buffers() {
        for bits in 0..=8 * buf.len() {
            let text = encode(&buf, bits);
            let expected = if bits % 5 == 0 { bits / 5 } else { bits / 5 + 1 };
            assert_eq!(text.chars().count(), expected);
            assert_eq!(text.len(), expected);
        }
    }
    assert_eq!(encode(&[0u8; 4], 1).len(), 1);
    assert_eq!(encode(&[0u8; 4], 5).len(), 1);
    assert_eq!(encode(&[0u8; 4], 6).len(), 2);
    assert_eq!(encode(&[0u8; 4], 31).len(), 7);
    assert_eq!(encode(&[0u8; 4], 32).len(), 7);
}

#[test]
fn every_symbol_is_of_the_alphabet() {
    for buf in sample_buffers() {
        for bits in 0..=8 * buf.len() {
            for c in encode(&buf, bits).chars() {
                assert!(ALPHABET.contains(c));
            }
        }
    }
}

#[test]
fn every_symbol_is_reached() {
    let mut seen = String::new();
    for v in 0u8..32 {
        seen.push_str(&encode(&[v << 3], 5));
    }
    assert_eq!(seen, ALPHABET);
}

#[test]
fn same_input_gives_same_text() {
    for buf in sample_buffers() {
        let copy = buf.clone();
        for bits in 0..=8 * buf.len() {
            assert_eq!(encode(&buf, bits), encode(&buf, bits));
            assert_eq!(encode(&buf, bits), encode(&copy, bits));
        }
        assert_eq!(encode_full_bytes(&buf), encode_full_bytes(&copy));
    }
}

#[test]
fn shorter_encoding_is_a_prefix_of_the_longer() {
    for buf in sample_buffers() {
        let whole = encode_full_bytes(&buf);
        for long in 0..=8 * buf.len() {
            let longer = encode(&buf, long);
            assert!(whole.starts_with(&longer));
            for short in 0..=long {
                assert!(longer.starts_with(&encode(&buf, short)));
            }
        }
    }
    let buf = [0x12, 0x34, 0x56, 0x78, 0x9a];
    assert_eq!(encode(&buf, 10), "ne");
    assert_eq!(encode(&buf, 25), "ne4fc");
    assert!(encode(&buf, 25).starts_with(&encode(&buf, 10)));
}

#[test]
fn text_depends_on_the_covered_bits_only() {
    assert_eq!(encode(&[0xab, 0xc0], 10), encode(&[0xab, 0xff], 10));
    assert_eq!(encode(&[0xab, 0xc0, 0x11], 10), encode(&[0xab, 0xc0], 10));
    assert_ne!(encode(&[0xab, 0xc0], 10), encode(&[0xab, 0x80], 10));
    assert_ne!(encode(&[0xab, 0xc0], 6), encode(&[0xab, 0x80], 6));
}

#[test]
fn full_bytes_is_encode_with_eight_bits_a_byte() {
    for buf in sample_buffers() {
        assert_eq!(encode_full_bytes(&buf), encode(&buf, 8 * buf.len()));
    }
}

#[test]
fn text_spells_the_bits_five_at_a_time() {
    for buf in sample_buffers() {
        for bits in 0..=8 * buf.len() {
            assert_eq!(encode(&buf, bits), spelled_out(&buf, bits));
        }
    }
    for hi in 0u16..=255 {
        for lo in [0x00u8, 0x01, 0x7f, 0x80, 0xaa, 0xff] {
            let buf = [hi as u8, lo];
            for bits in 0..=16 {
                assert_eq!(encode(&buf, bits), spelled_out(&buf, bits));
            }
        }
    }
}
