use partial_eth_key_cracker::assembler::{enumerate_candidates, overwirite_scratch_bits};

#[test]
fn scratch_bytes_replace_the_range() {
    let key = vec![10u8, 11, 12, 13, 14, 15];
    let scratch = vec![1u8, 2, 3];
    assert_eq!(overwirite_scratch_bits(&key, &scratch, 2, 5), vec![10u8, 11, 1, 2, 3, 15]);
    assert_eq!(overwirite_scratch_bits(&key, &scratch, 0, 3), vec![1u8, 2, 3, 13, 14, 15]);
    assert_eq!(overwirite_scratch_bits(&key, &scratch, 3, 6), vec![10u8, 11, 12, 1, 2, 3]);
    assert_eq!(overwirite_scratch_bits(&key, &scratch, 4, 5), vec![10u8, 11, 12, 13, 1, 15]);
}

#[test]
fn assembling_leaves_its_arguments_alone() {
    let key = vec![9u8; 32];
    let scratch = vec![1u8, 2];
    let candidate = overwirite_scratch_bits(&key, &scratch, 30, 32);
    assert_eq!(key, vec![9u8; 32]);
    assert_eq!(scratch, vec![1u8, 2]);
    assert_eq!(candidate.len(), key.len());
    assert_eq!(&candidate[..30], &key[..30]);
    assert_eq!(&candidate[30..], &scratch[..]);
}

#[test]
fn an_empty_range_copies_the_key() {
    let key = vec![5u8, 6, 7];
    assert_eq!(overwirite_scratch_bits(&key, &vec![], 1, 1), key);
    assert_eq!(overwirite_scratch_bits(&key, &vec![1u8], 2, 1), key);
    assert_eq!(overwirite_scratch_bits(&key, &vec![1u8], 200, 100), key);
}

#[test]
fn different_scratch_values_give_different_candidates() {
    let key = vec![0u8; 32];
    let mut seen = std::collections::HashSet::new();
    for low in 0..=255u8 {
        for high in [0u8, 1, 127, 255] {
            let candidate = overwirite_scratch_bits(&key, &vec![low, high], 4, 6);
            assert!(seen.insert(candidate));
        }
    }
    assert_eq!(seen.len(), 1024);
}

#[test]
fn enumeration_of_one_byte_has_256_candidates_in_counter_order() {
    let key = vec![7u8; 32];
    let candidates = enumerate_candidates(&key, 3, 4);
    assert_eq!(candidates.len(), 256);
    for (place, candidate) in candidates.iter().enumerate() {
        let mut expected = key.clone();
        expected[3] = place as u8;
        assert_eq!(candidate, &expected);
    }
}

#[test]
fn enumeration_of_two_bytes_counts_the_first_byte_fastest() {
    let key = vec![0u8; 32];
    let candidates = enumerate_candidates(&key, 0, 2);
    assert_eq!(candidates.len(), 65536);
    assert_eq!(&candidates[0][..2], &[0u8, 0]);
    assert_eq!(&candidates[1][..2], &[1u8, 0]);
    assert_eq!(&candidates[255][..2], &[255u8, 0]);
    assert_eq!(&candidates[256][..2], &[0u8, 1]);
    assert_eq!(&candidates[65535][..2], &[255u8, 255]);
    let distinct: std::collections::HashSet<&Vec<u8>> = candidates.iter().collect();
    assert_eq!(distinct.len(), 65536);
}

#[test]
fn enumeration_of_no_bytes_is_the_key_alone() {
    let key = vec![3u8; 32];
    assert_eq!(enumerate_candidates(&key, 5, 5), vec![key.clone()]);
}
