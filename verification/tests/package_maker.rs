use repology::error::PackageParsingError;
use repology::name_type::NameType;
use repology::package::{ExtraField, ExtraFields, Link, LinkType, ParsedPackage};
use repology::package_maker::PackageMaker;

#[test]
#[should_panic]
fn test_panic_double_srcname() {
    let mut pkg = PackageMaker::default();
    pkg.set_names("foo", NameType::SrcName());
    pkg.set_names("foo", NameType::SrcName());
}

#[test]
#[should_panic]
fn test_panic_double_binname() {
    let mut pkg = PackageMaker::default();
    pkg.set_names("foo", NameType::BinName());
    pkg.set_names("foo", NameType::BinName());
}

#[test]
#[should_panic]
fn test_panic_double_trackname() {
    let mut pkg = PackageMaker::default();
    pkg.set_names("foo", NameType::TrackName());
    pkg.set_names("foo", NameType::TrackName());
}

#[test]
#[should_panic]
fn test_panic_double_displayname() {
    let mut pkg = PackageMaker::default();
    pkg.set_names("foo", NameType::DisplayName());
    pkg.set_names("foo", NameType::DisplayName());
}

#[test]
#[should_panic]
fn test_panic_double_projectname_seed() {
    let mut pkg = PackageMaker::default();
    pkg.set_names("foo", NameType::ProjectNameSeed());
    pkg.set_names("foo", NameType::ProjectNameSeed());
}

#[test]
fn test_simple() {
    let mut pkg = PackageMaker::default();
    pkg.set_names("bin", NameType::BinName());
    pkg.set_names("src", NameType::SrcName());
    pkg.set_names("track", NameType::TrackName());
    pkg.set_names("display", NameType::DisplayName());
    pkg.set_names("project", NameType::ProjectNameSeed());
    pkg.set_version("1.2.3");
    let package = pkg.finalize().unwrap();

    assert_eq!(package.binname, Some("bin".to_string()));
    assert_eq!(package.srcname, Some("src".to_string()));
    assert_eq!(package.trackname, Some("track".to_string()));
    assert_eq!(package.visiblename, "display".to_string());
    assert_eq!(package.projectname_seed, "project".to_string());
    assert_eq!(package.version, "1.2.3".to_string());
    assert_eq!(package.rawversion, "1.2.3".to_string());
}

fn finalize_test_package(mut pkg: PackageMaker) -> ParsedPackage {
    pkg.set_names("foobar", NameType::all());
    pkg.set_version("1.2.3");
    pkg.finalize().unwrap()
}

fn rejection(pkg: PackageMaker) -> PackageParsingError {
    match pkg.finalize() {
        Ok(_) => panic!("the package was accepted"),
        Err(error) => error,
    }
}

fn named_maker() -> PackageMaker {
    let mut pkg = PackageMaker::default();
    pkg.set_names("display", NameType::DisplayName().union(NameType::ProjectNameSeed()));
    pkg.set_version("1.2.3");
    pkg
}

#[test]
fn test_set_extra_field_one() {
    let mut pkg = PackageMaker::default();
    pkg.set_extra_field_one("foo", "bar1");
    pkg.set_extra_field_one("foo", "bar2");
    let package = finalize_test_package(pkg);
    assert_eq!(
        package.extrafields.get("foo"),
        Some(&ExtraField::OneValue("bar2".to_string()))
    );
}

#[test]
fn test_set_extra_field_many() {
    let mut pkg = PackageMaker::default();
    pkg.set_extra_field_many("foo", &["bar1", "bar1"]);
    pkg.set_extra_field_many("foo", &["bar3", "bar4"]);
    let package = finalize_test_package(pkg);
    assert_eq!(
        package.extrafields.get("foo"),
        Some(&ExtraField::ManyValues(vec!["bar3".to_string(), "bar4".to_string()]))
    );
}

#[test]
fn test_add_link_no_framgent() {
    let mut pkg = PackageMaker::default();
    pkg.add_link(LinkType::UpstreamHomepage, "https://example.com/");
    let package = finalize_test_package(pkg);
    assert_eq!(
        package.links,
        vec![Link {
            link_type: LinkType::UpstreamHomepage,
            url: "https://example.com/".to_string(),
            fragment: None,
        }],
    );
}

#[test]
fn test_add_link_framgent() {
    let mut pkg = PackageMaker::default();
    pkg.add_link(LinkType::UpstreamHomepage, "https://example.com/foo#frag");
    let package = finalize_test_package(pkg);
    assert_eq!(
        package.links,
        vec![Link {
            link_type: LinkType::UpstreamHomepage,
            url: "https://example.com/foo".to_string(),
            fragment: Some("frag".to_string()),
        }],
    );
}

#[test]
fn all_roles_and_a_version_make_a_record() {
    let package = finalize_test_package(PackageMaker::default());
    assert_eq!(package.visiblename, "foobar".to_string());
    assert_eq!(package.projectname_seed, "foobar".to_string());
    assert_eq!(package.srcname, Some("foobar".to_string()));
    assert_eq!(package.binname, Some("foobar".to_string()));
    assert_eq!(package.trackname, Some("foobar".to_string()));
    assert_eq!(package.version, "1.2.3".to_string());
    assert_eq!(package.rawversion, "1.2.3".to_string());
    assert!(package.binnames.is_empty());
    assert!(package.maintainers.is_empty());
    assert!(package.links.is_empty());
    assert!(package.extrafields.is_empty());
    assert_eq!(package.category, None);
    assert_eq!(package.comment, None);
    assert_eq!(package.subrepo, None);
    assert_eq!(package.flags.bits, 0);
}

#[test]
fn an_assigned_role_blocks_every_set_that_holds_it() {
    let mut pkg = PackageMaker::default();
    pkg.set_names("foo", NameType::TrackName());
    assert!(!pkg.can_set_names(NameType::all()));
    assert!(!pkg.can_set_names(NameType::TrackName().union(NameType::SrcName())));
    assert!(pkg.can_set_names(NameType::SrcName().union(NameType::BinName())));
}

#[test]
fn an_empty_set_of_roles_assigns_nothing() {
    let mut pkg = PackageMaker::default();
    pkg.set_names("foo", NameType::empty());
    assert!(pkg.can_set_names(NameType::all()));
    pkg.set_names("foo", NameType::empty());
    assert_eq!(rejection(pkg), PackageParsingError::MissingProjectNameSeed);
}

#[test]
fn calls_can_be_chained() {
    let mut pkg = PackageMaker::default();
    pkg.set_names("zsh", NameType::all())
        .set_version("5.9")
        .set_summary("A shell")
        .add_maintainer("one@example.com")
        .add_category("shells")
        .add_binnames(&["zsh", "zsh-doc"]);
    let package = pkg.finalize().unwrap();
    assert_eq!(package.comment, Some("A shell".to_string()));
    assert_eq!(package.maintainers, vec!["one@example.com".to_string()]);
    assert_eq!(package.category, Some("shells".to_string()));
    assert_eq!(package.binnames, vec!["zsh".to_string(), "zsh-doc".to_string()]);
    assert_eq!(package.version, "5.9".to_string());
}

#[test]
fn binnames_keep_order_and_duplicates() {
    let mut pkg = PackageMaker::default();
    pkg.add_binnames(&["b", "a"]);
    pkg.add_binnames(&[]);
    pkg.add_binnames(&["a"]);
    let package = finalize_test_package(pkg);
    assert_eq!(
        package.binnames,
        vec!["b".to_string(), "a".to_string(), "a".to_string()]
    );
}

#[test]
fn the_last_version_wins() {
    let mut pkg = PackageMaker::default();
    pkg.set_names("foobar", NameType::all());
    pkg.set_version_stripped("1.0-rc1", |raw: &str| raw.replace("-rc1", ""));
    pkg.set_version("2.0");
    let package = pkg.finalize().unwrap();
    assert_eq!(package.version, "2.0".to_string());
    assert_eq!(package.rawversion, "2.0".to_string());
}

#[test]
fn a_stripped_version_keeps_its_raw_form() {
    let mut pkg = PackageMaker::default();
    pkg.set_names("foobar", NameType::all());
    pkg.set_version("0.1");
    pkg.set_version_stripped("1.2.3-r1", |raw: &str| {
        raw.split('-').next().unwrap_or(raw).to_string()
    });
    let package = pkg.finalize().unwrap();
    assert_eq!(package.version, "1.2.3".to_string());
    assert_eq!(package.rawversion, "1.2.3-r1".to_string());
}

#[test]
fn a_version_stripped_to_nothing_is_an_empty_version() {
    let mut pkg = PackageMaker::default();
    pkg.set_names("foobar", NameType::all());
    pkg.set_version_stripped("-r1", |_raw: &str| String::new());
    assert_eq!(rejection(pkg), PackageParsingError::EmptyVersion);
}

#[test]
fn the_summary_is_replaced() {
    let mut pkg = PackageMaker::default();
    pkg.set_summary("first");
    pkg.set_summary("second");
    let package = finalize_test_package(pkg);
    assert_eq!(package.comment, Some("second".to_string()));
}

#[test]
fn maintainers_keep_order_case_and_duplicates() {
    let mut pkg = PackageMaker::default();
    pkg.add_maintainer("B@example.com");
    pkg.add_maintainers(&["a@example.com", "B@example.com"]);
    pkg.add_maintainers(&[]);
    let package = finalize_test_package(pkg);
    assert_eq!(
        package.maintainers,
        vec![
            "B@example.com".to_string(),
            "a@example.com".to_string(),
            "B@example.com".to_string()
        ]
    );
}

#[test]
fn licenses_keep_order_and_duplicates() {
    let mut pkg = PackageMaker::default();
    pkg.add_license("MIT");
    pkg.add_licenses(&["GPL-3.0-or-later", "MIT"]);
    pkg.add_licenses(&[]);
    let package = finalize_test_package(pkg);
    assert_eq!(
        package.licenses,
        vec!["MIT".to_string(), "GPL-3.0-or-later".to_string(), "MIT".to_string()]
    );
}

#[test]
fn the_first_category_wins() {
    let mut pkg = PackageMaker::default();
    pkg.add_category("x");
    pkg.add_category("y");
    let package = finalize_test_package(pkg);
    assert_eq!(package.category, Some("x".to_string()));
}

#[test]
fn the_first_of_many_categories_wins() {
    let mut pkg = PackageMaker::default();
    pkg.add_categories(&[]);
    pkg.add_categories(&["x", "y"]);
    pkg.add_categories(&["z"]);
    pkg.add_category("w");
    let package = finalize_test_package(pkg);
    assert_eq!(package.category, Some("x".to_string()));
}

#[test]
fn links_are_split_at_the_first_hash_only() {
    let mut pkg = PackageMaker::default();
    pkg.add_links(
        LinkType::UpstreamDownload,
        &["https://example.com/a#b#c", "#top", "https://example.com/end#", ""],
    );
    pkg.add_links(LinkType::PackageRecipe, &[]);
    pkg.add_link(LinkType::PackageRecipe, "https://example.com/r");
    let package = finalize_test_package(pkg);
    assert_eq!(
        package.links,
        vec![
            Link {
                link_type: LinkType::UpstreamDownload,
                url: "https://example.com/a".to_string(),
                fragment: Some("b#c".to_string()),
            },
            Link {
                link_type: LinkType::UpstreamDownload,
                url: "".to_string(),
                fragment: Some("top".to_string()),
            },
            Link {
                link_type: LinkType::UpstreamDownload,
                url: "https://example.com/end".to_string(),
                fragment: Some("".to_string()),
            },
            Link {
                link_type: LinkType::UpstreamDownload,
                url: "".to_string(),
                fragment: None,
            },
            Link {
                link_type: LinkType::PackageRecipe,
                url: "https://example.com/r".to_string(),
                fragment: None,
            },
        ],
    );
}

#[test]
fn a_link_with_letters_of_several_bytes_is_split_by_characters() {
    let link = Link::parse(LinkType::UpstreamHomepage, "https://пример.example/путь#раздел");
    assert_eq!(link.url, "https://пример.example/путь".to_string());
    assert_eq!(link.fragment, Some("раздел".to_string()));
}

#[test]
fn an_empty_list_leaves_an_extra_field_alone() {
    let mut pkg = PackageMaker::default();
    pkg.set_extra_field_many("absent", &[]);
    pkg.set_extra_field_one("one", "value");
    pkg.set_extra_field_many("one", &[]);
    pkg.set_extra_field_many("many", &["a", "b"]);
    pkg.set_extra_field_many("many", &[]);
    let package = finalize_test_package(pkg);
    assert_eq!(package.extrafields.get("absent"), None);
    assert_eq!(
        package.extrafields.get("one"),
        Some(&ExtraField::OneValue("value".to_string()))
    );
    assert_eq!(
        package.extrafields.get("many"),
        Some(&ExtraField::ManyValues(vec!["a".to_string(), "b".to_string()]))
    );
    assert_eq!(package.extrafields.len(), 2);
}

#[test]
fn one_value_and_many_values_replace_each_other() {
    let mut pkg = PackageMaker::default();
    pkg.set_extra_field_one("k", "v");
    pkg.set_extra_field_many("k", &["a", "a"]);
    pkg.set_extra_field_one("other", "w");
    let package = finalize_test_package(pkg);
    assert_eq!(
        package.extrafields.get("k"),
        Some(&ExtraField::ManyValues(vec!["a".to_string(), "a".to_string()]))
    );
    assert_eq!(
        package.extrafields.get("other"),
        Some(&ExtraField::OneValue("w".to_string()))
    );
}

#[test]
fn no_names_and_a_version_lacks_the_project_name_seed_first() {
    let mut pkg = PackageMaker::default();
    pkg.set_version("1.2.3");
    assert_eq!(rejection(pkg), PackageParsingError::MissingProjectNameSeed);
}

#[test]
fn no_package_names_and_a_version_is_missing_package_names() {
    assert_eq!(rejection(named_maker()), PackageParsingError::MissingPackageNames);
}

#[test]
fn missing_fields_are_told_apart() {
    assert_eq!(
        rejection(PackageMaker::default()),
        PackageParsingError::MissingProjectNameSeed
    );

    let mut pkg = PackageMaker::default();
    pkg.set_names("seed", NameType::ProjectNameSeed());
    assert_eq!(rejection(pkg), PackageParsingError::MissingVisibleName);

    let mut pkg = PackageMaker::default();
    pkg.set_names("seed", NameType::ProjectNameSeed().union(NameType::DisplayName()));
    pkg.set_names("src", NameType::SrcName());
    assert_eq!(rejection(pkg), PackageParsingError::MissingVersion);
}

#[test]
fn empty_fields_are_told_apart() {
    let mut pkg = PackageMaker::default();
    pkg.set_names("", NameType::all());
    pkg.set_version("");
    assert_eq!(rejection(pkg), PackageParsingError::EmptyProjectNameSeed);

    let mut pkg = PackageMaker::default();
    pkg.set_names("seed", NameType::ProjectNameSeed());
    pkg.set_names("", NameType::DisplayName());
    assert_eq!(rejection(pkg), PackageParsingError::EmptyVisibleName);

    let mut pkg = PackageMaker::default();
    pkg.set_names("seed", NameType::ProjectNameSeed().union(NameType::DisplayName()));
    pkg.set_version("");
    assert_eq!(rejection(pkg), PackageParsingError::EmptyVersion);

    let mut pkg = named_maker();
    pkg.set_names("", NameType::SrcName().union(NameType::BinName()));
    assert_eq!(rejection(pkg), PackageParsingError::EmptySrcName);

    let mut pkg = named_maker();
    pkg.set_names("src", NameType::SrcName());
    pkg.set_names("", NameType::BinName());
    assert_eq!(rejection(pkg), PackageParsingError::EmptyBinName);

    let mut pkg = named_maker();
    pkg.add_binnames(&["bin", "", "other"]);
    assert_eq!(rejection(pkg), PackageParsingError::EmptyBinNamesEntry);
}

#[test]
fn an_empty_entry_of_the_list_is_not_the_empty_single_binary_name() {
    let mut pkg = named_maker();
    pkg.set_names("src", NameType::SrcName().union(NameType::BinName()));
    pkg.add_binnames(&["a", ""]);
    assert_eq!(rejection(pkg), PackageParsingError::EmptyBinNamesEntry);

    let mut pkg = named_maker();
    pkg.add_binnames(&[""]);
    assert_eq!(rejection(pkg), PackageParsingError::EmptyBinNamesEntry);

    let mut pkg = named_maker();
    pkg.set_names("", NameType::BinName());
    pkg.add_binnames(&["a", ""]);
    assert_eq!(rejection(pkg), PackageParsingError::EmptyBinName);

    let mut pkg = named_maker();
    pkg.set_names("", NameType::SrcName());
    pkg.add_binnames(&[""]);
    assert_eq!(rejection(pkg), PackageParsingError::EmptySrcName);
}

#[test]
fn a_list_of_binary_names_is_identity_enough() {
    let mut pkg = named_maker();
    pkg.add_binnames(&["bin"]);
    let package = pkg.finalize().unwrap();
    assert_eq!(package.srcname, None);
    assert_eq!(package.binname, None);
    assert_eq!(package.binnames, vec!["bin".to_string()]);
}

#[test]
fn extra_fields_hold_one_value_for_each_name() {
    let fields = ExtraFields::new();
    assert!(fields.is_empty());
    assert_eq!(fields.len(), 0);
    assert_eq!(fields.get("a"), None);

    let fields = fields
        .with("a".to_string(), ExtraField::OneValue("1".to_string()))
        .with("b".to_string(), ExtraField::ManyValues(vec!["2".to_string()]))
        .with("a".to_string(), ExtraField::OneValue("3".to_string()));
    assert!(!fields.is_empty());
    assert_eq!(fields.len(), 2);
    assert_eq!(fields.get("a"), Some(&ExtraField::OneValue("3".to_string())));
    assert_eq!(
        fields.get("b"),
        Some(&ExtraField::ManyValues(vec!["2".to_string()]))
    );
    assert_eq!(fields.get("c"), None);
}
