use antwerp::assets::{folder_destination, folder_plan, Asset};

#[test]
fn folder_plan_filters_and_maps() {
    let paths = vec![
        "public/scripts/app.js".to_string(),
        "public/readme.txt".to_string(),
    ];
    let plan = folder_plan(&paths, r"\.js$", "dist").unwrap();
    assert_eq!(
        plan,
        vec![("public/scripts/app.js".to_string(), "dist/scripts/app.js".to_string())]
    );
}

#[test]
fn folder_plan_rejects_bad_pattern() {
    let paths: Vec<String> = vec![];
    assert!(folder_plan(&paths, "(", "dist").is_none());
}

#[test]
fn folder_destination_swaps_first_segment() {
    assert_eq!(folder_destination("a/b/c.png", "out"), "out/b/c.png");
    assert_eq!(folder_destination("nofolder", "out"), "nofolder");
}

#[test]
fn asset_variants_carry_data() {
    let a = Asset::Folder("images/**/*".to_string(), r"\.png$".to_string(), false);
    match a {
        Asset::Folder(source, check, overwrite) => {
            assert_eq!(source, "images/**/*");
            assert_eq!(check, r"\.png$");
            assert!(!overwrite);
        },
        _ => panic!("wrong variant"),
    }
}
