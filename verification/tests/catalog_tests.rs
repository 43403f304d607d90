use preconfig_tester::catalog::{custom_sort, sort_batch_names, split_filename, splits_cleanly};
use std::cmp::Ordering;

#[test]
fn splits_plain_name() {
    let (base, variant, provider, has) = split_filename("general.bat");
    assert_eq!(base, "general");
    assert_eq!(variant, "");
    assert_eq!(provider, "");
    assert!(!has);
}

#[test]
fn splits_variant_name() {
    let (base, variant, provider, has) = split_filename("general_ALT_v2.bat");
    assert_eq!(base, "general");
    assert_eq!(variant, "ALT_v2");
    assert_eq!(provider, "");
    assert!(!has);
}

#[test]
fn splits_provider_name() {
    let (base, variant, provider, has) = split_filename("general_ALT (Rostelecom).bat");
    assert_eq!(base, "general");
    assert_eq!(variant, "ALT");
    assert_eq!(provider, "(Rostelecom)");
    assert!(has);
}

#[test]
fn strips_repeated_extension() {
    let (base, variant, _, _) = split_filename("general.bat.bat");
    assert_eq!(base, "general");
    assert_eq!(variant, "");
}

#[test]
fn clean_split_check() {
    assert!(splits_cleanly("general.bat"));
    assert!(splits_cleanly("general (MGTS).bat"));
    assert!(!splits_cleanly("(MGTS).bat"));
}

#[test]
fn ordering_by_base_then_variant() {
    assert_eq!(custom_sort("alpha.bat", "beta.bat"), Ordering::Less);
    assert_eq!(custom_sort("beta.bat", "alpha.bat"), Ordering::Greater);
    assert_eq!(custom_sort("general.bat", "general.bat"), Ordering::Equal);
    assert_eq!(custom_sort("general.bat", "general_ALT.bat"), Ordering::Less);
    assert_eq!(custom_sort("general_ALT.bat", "general_v2.bat"), Ordering::Less);
}

#[test]
fn provider_less_comes_first() {
    assert_eq!(custom_sort("general.bat", "general (MGTS).bat"), Ordering::Less);
    assert_eq!(custom_sort("general (MGTS).bat", "general.bat"), Ordering::Greater);
    assert_eq!(
        custom_sort("general (MGTS).bat", "general (Rostelecom).bat"),
        Ordering::Less
    );
}

#[test]
fn sorts_into_catalog_order() {
    let mut names = vec![
        "general_v2.bat".to_string(),
        "general (MGTS).bat".to_string(),
        "discord.bat".to_string(),
        "general.bat".to_string(),
        "general_ALT.bat".to_string(),
    ];
    sort_batch_names(&mut names);
    assert_eq!(
        names,
        vec![
            "discord.bat".to_string(),
            "general.bat".to_string(),
            "general (MGTS).bat".to_string(),
            "general_ALT.bat".to_string(),
            "general_v2.bat".to_string(),
        ]
    );
}

#[test]
fn sort_keeps_duplicates() {
    let mut names = vec![
        "b.bat".to_string(),
        "a.bat".to_string(),
        "b.bat".to_string(),
    ];
    sort_batch_names(&mut names);
    assert_eq!(
        names,
        vec!["a.bat".to_string(), "b.bat".to_string(), "b.bat".to_string()]
    );
}
