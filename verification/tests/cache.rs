use trustchain_backend::cache::ReputationCache;
use trustchain_backend::fixed::Score;
use trustchain_backend::identity::Identity;
use trustchain_backend::reputation::get_reputation;

fn points(micros: u32) -> Score {
    Score::from_micros(micros).unwrap()
}

#[test]
fn unknown_identity_reads_zero() {
    let cache = ReputationCache::new();
    let x = Identity::from_bytes(vec![1, 2, 3]);
    assert_eq!(cache.get(&x), Score::zero());
    assert_eq!(cache.get(&x).micros(), 0);
    assert_eq!(get_reputation(&cache, &Identity::from_bytes(Vec::new())).micros(), 0);
}

#[test]
fn set_then_get_and_overwrite() {
    let mut cache = ReputationCache::new();
    let x = Identity::from_bytes(vec![1, 2, 3]);
    assert_eq!(cache.get(&x).micros(), 0);
    cache.set(Identity::from_bytes(vec![1, 2, 3]), points(7_500_000));
    assert_eq!(cache.get(&x), points(7_500_000));
    cache.set(Identity::from_bytes(vec![1, 2, 3]), points(3_000_000));
    assert_eq!(cache.get(&x), points(3_000_000));
    assert_eq!(get_reputation(&cache, &x).micros(), 3_000_000);
}

#[test]
fn identities_do_not_share_a_slot() {
    let mut cache = ReputationCache::new();
    let a = Identity::from_bytes(vec![1, 2, 3]);
    let b = Identity::from_bytes(vec![1, 2]);
    let c = Identity::from_bytes(vec![1, 2, 4]);
    let empty = Identity::from_bytes(Vec::new());
    cache.set(Identity::from_bytes(vec![1, 2, 3]), points(1_000_000));
    cache.set(Identity::from_bytes(vec![1, 2]), points(2_000_000));
    cache.set(Identity::from_bytes(Vec::new()), points(4_000_000));
    assert_eq!(cache.get(&a).micros(), 1_000_000);
    assert_eq!(cache.get(&b).micros(), 2_000_000);
    assert_eq!(cache.get(&c).micros(), 0);
    assert_eq!(cache.get(&empty).micros(), 4_000_000);
    cache.set(Identity::from_bytes(vec![1, 2]), points(9_000_000));
    assert_eq!(cache.get(&a).micros(), 1_000_000);
    assert_eq!(cache.get(&b).micros(), 9_000_000);
    assert_eq!(cache.get(&empty).micros(), 4_000_000);
}

#[test]
fn many_identities_are_all_kept() {
    let mut cache = ReputationCache::new();
    for i in 0..200u32 {
        cache.set(Identity::from_bytes(i.to_be_bytes().to_vec()), points(i * 1_000));
    }
    for i in 0..200u32 {
        let id = Identity::from_bytes(i.to_be_bytes().to_vec());
        assert_eq!(cache.get(&id).micros(), i * 1_000);
    }
}

#[test]
fn identity_from_text_gives_the_bytes_of_the_principal() {
    let management = Identity::from_text("aaaaa-aa").unwrap();
    assert_eq!(management.as_bytes(), &Vec::<u8>::new());
    let text = "2chl6-4hpzw-vqaaa-aaaaa-c";
    let id = Identity::from_text(text).unwrap();
    assert_eq!(id.as_bytes(), &vec![0xef, 0xcd, 0xab, 0, 0, 0, 0, 0, 1]);
    assert_eq!(
        id.as_bytes().as_slice(),
        candid::Principal::from_text(text).unwrap().as_slice()
    );
    assert!(id.same_as(&Identity::from_bytes(vec![0xef, 0xcd, 0xab, 0, 0, 0, 0, 0, 1])));
    assert!(!id.same_as(&management));
}

#[test]
fn text_that_spells_no_principal_gives_none() {
    assert!(Identity::from_text("0x52908400098527886E0F7030069857D2E4169EE7").is_none());
    assert!(Identity::from_text("").is_none());
    assert!(Identity::from_text("2chl6-4hpzw-vqaaa-aaaaa-d").is_none());
    assert!(Identity::from_text("2chl64hpzwvqaaaaaaaac").is_none());
}

#[test]
fn longest_principal_text_is_read() {
    let bytes: Vec<u8> = (1..=29u8).collect();
    let text = candid::Principal::from_slice(&bytes).to_text();
    assert_eq!(text.len(), 63);
    assert_eq!(Identity::from_text(&text).unwrap().as_bytes(), &bytes);
    assert_eq!(Identity::from_text(&text.to_uppercase()).unwrap().as_bytes(), &bytes);
    assert_eq!(Identity::for_address(&text).as_bytes(), &bytes);
}

#[test]
fn text_longer_than_any_principal_spells_none() {
    let bytes: Vec<u8> = (1..=29u8).collect();
    let text = candid::Principal::from_slice(&bytes).to_text();
    let longer = format!("{}a", text);
    assert_eq!(longer.len(), 64);
    assert!(Identity::from_text(&longer).is_none());
    assert!(candid::Principal::from_text(&longer).is_err());
    assert!(Identity::from_text(&format!("-{}", text)).is_none());
    assert!(Identity::from_text(&"a".repeat(64)).is_none());
    assert!(Identity::from_text(&"aaaaa-".repeat(100_000)).is_none());
    assert!(Identity::from_text(&"\u{e9}".repeat(32)).is_none());
    assert!(Identity::from_text(&"\u{e9}".repeat(31)).is_none());
    assert_eq!(Identity::for_address(&"a".repeat(1_000)).as_bytes(), &vec![4u8]);
}

#[test]
fn anonymous_identity_is_the_byte_four() {
    assert_eq!(Identity::anonymous().as_bytes(), &vec![4u8]);
    assert_eq!(
        Identity::anonymous().as_bytes().as_slice(),
        candid::Principal::anonymous().as_slice()
    );
    assert_eq!(Identity::from_text("2vxsx-fae").unwrap().as_bytes(), &vec![4u8]);
}

#[test]
fn address_falls_back_to_the_anonymous_identity() {
    assert_eq!(Identity::for_address("not a principal").as_bytes(), &vec![4u8]);
    assert_eq!(Identity::for_address("aaaaa-aa").as_bytes(), &Vec::<u8>::new());
    assert_eq!(Identity::or_anonymous(None).as_bytes(), &vec![4u8]);
    assert_eq!(
        Identity::or_anonymous(Some(Identity::from_bytes(vec![9, 9]))).as_bytes(),
        &vec![9u8, 9]
    );
}
