use momcap::fourcc::idFromCharsLikeAppleDoes;
use momcap::fourcc::token_from_id;

#[test]
fn momm_token_packs_to_fixed_constant() {
    let key = idFromCharsLikeAppleDoes("momm");
    assert_eq!(key, 0x6D6F_6D6D);
    assert_eq!(key, 1836019053);
}

#[test]
fn ascii_token_packs_big_endian() {
    assert_eq!(idFromCharsLikeAppleDoes("abcd"), 0x6162_6364);
    assert_eq!(idFromCharsLikeAppleDoes("\0\0\0\0"), 0);
}

#[test]
fn unpack_momm_key_gives_token_back() {
    let token = token_from_id(0x6D6F_6D6D);
    assert_eq!(token, vec!['m', 'o', 'm', 'm']);
}

#[test]
fn pack_after_unpack_is_identity() {
    for &id in &[0u32, 1, 0x6D6F_6D6D, 0xDEAD_BEEF, u32::MAX] {
        let token = token_from_id(id);
        assert_eq!(token.len(), 4);
        let s: String = token.into_iter().collect();
        assert_eq!(idFromCharsLikeAppleDoes(&s), id);
    }
}
