use gamedig::filter::Filter;
use gamedig::search::SearchFilters;

fn contains(haystack: &[u8], needle: &[u8]) -> bool {
    haystack.windows(needle.len()).any(|w| w == needle)
}

#[test]
fn merge_normals_test() {
    let filters_a = SearchFilters::new().insert(Filter::IsSecured(true));

    let filters_b = SearchFilters::new()
        .insert(Filter::CanBeFull(true))
        .insert(Filter::IsSecured(false));

    let combined = filters_a.merge_all(filters_b);

    let composed = SearchFilters::new()
        .insert(Filter::IsSecured(false))
        .insert(Filter::CanBeFull(true));

    assert_eq!(combined, composed)
}

#[test]
fn empty_search_is_one_zero_byte() {
    assert_eq!(SearchFilters::new().to_bytes(), vec![0u8]);
    assert_eq!(SearchFilters::default().to_bytes(), vec![0u8]);
}

#[test]
fn insert_same_kind_keeps_latest() {
    let twice = SearchFilters::new()
        .insert(Filter::RunsMap("de_dust".to_string()))
        .insert(Filter::RunsMap("cp_well".to_string()));
    let once = SearchFilters::new().insert(Filter::RunsMap("cp_well".to_string()));
    assert_eq!(twice, once);
    assert_eq!(twice.to_bytes(), b"\\map\\cp_well\0".to_vec());
}

#[test]
fn insertion_order_does_not_matter() {
    let a = SearchFilters::new()
        .insert(Filter::RunsAppID(440))
        .insert(Filter::IsEmpty(false));
    let b = SearchFilters::new()
        .insert(Filter::IsEmpty(false))
        .insert(Filter::RunsAppID(440));
    assert_eq!(a, b);
    assert_eq!(a.to_bytes(), b.to_bytes());
}

#[test]
fn single_nand_entry() {
    let bytes = SearchFilters::new().insert_nand(Filter::IsSecured(true)).to_bytes();
    assert_eq!(bytes, b"nand1\\secure\\1\0".to_vec());
    assert!(contains(&bytes, b"nand1\\secure\\1"));
    assert!(!contains(&bytes, b"nor"));
}

#[test]
fn single_nor_entry() {
    let bytes = SearchFilters::new().insert_nor(Filter::RunsLinux(false)).to_bytes();
    assert_eq!(bytes, b"nor1\\linux\\0\0".to_vec());
    assert!(!contains(&bytes, b"nand"));
}

#[test]
fn groups_are_independent() {
    let filters = SearchFilters::new()
        .insert(Filter::IsDedicated(true))
        .insert_nand(Filter::IsDedicated(false))
        .insert_nor(Filter::IsDedicated(true));
    assert_eq!(
        filters.to_bytes(),
        b"\\dedicated\\1nand1\\dedicated\\0nor1\\dedicated\\1\0".to_vec()
    );
}

#[test]
fn nand_count_is_decimal() {
    let bytes = SearchFilters::new()
        .insert_nand(Filter::IsSecured(true))
        .insert_nand(Filter::RunsAppID(10))
        .insert_nand(Filter::NotAppID(7))
        .to_bytes();
    assert_eq!(bytes, b"nand3\\secure\\1\\appid\\10\\napp\\7\0".to_vec());
}

#[test]
fn merges_are_right_biased_per_group() {
    let mine = SearchFilters::new()
        .insert_nand(Filter::RunsMap("a".to_string()))
        .insert_nor(Filter::CanBeEmpty(true))
        .insert(Filter::IsSecured(true));
    let theirs = SearchFilters::new()
        .insert_nand(Filter::RunsMap("b".to_string()))
        .insert_nor(Filter::CanBeFull(false));
    let nands = mine.clone().merge_nands(&theirs);
    assert_eq!(
        nands.to_bytes(),
        b"\\secure\\1nand1\\map\\bnor1\\empty\\1\0".to_vec()
    );
    let nors = mine.clone().merge_nors(&theirs);
    assert_eq!(
        nors.to_bytes(),
        b"\\secure\\1nand1\\map\\anor2\\empty\\1\\full\\0\0".to_vec()
    );
    let normals = mine.merge_normals(&theirs);
    assert_eq!(
        normals.to_bytes(),
        b"\\secure\\1nand1\\map\\anor1\\empty\\1\0".to_vec()
    );
}

#[test]
fn unequal_searches_differ() {
    let a = SearchFilters::new().insert(Filter::IsSecured(true));
    let b = SearchFilters::new().insert(Filter::IsSecured(false));
    let c = SearchFilters::new().insert_nand(Filter::IsSecured(true));
    assert_ne!(a, b);
    assert_ne!(a, c);
}
