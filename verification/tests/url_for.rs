use repology::endpoints::{Endpoint, Section};
use repology::static_files::StaticFiles;
use repology::template_context::{TemplateContext, REPOLOGY_HOSTNAME};
use repology::url_for::{UrlConstructor, UrlError};

fn pair(name: &str, value: &str) -> (String, String) {
    (name.to_string(), value.to_string())
}

#[test]
fn a_pattern_without_places_is_its_own_address() {
    assert_eq!(UrlConstructor::new("/news").construct(), Ok("/news".to_string()));
    assert_eq!(UrlConstructor::new("").construct(), Ok("".to_string()));
    assert_eq!(UrlConstructor::new("/a}b").construct(), Ok("/a}b".to_string()));
}

#[test]
fn places_take_the_values_of_their_fields() {
    let url = UrlConstructor::new("/badge/{repo}/{name}.svg")
        .with_field("name", "zsh")
        .with_field("repo", "freebsd")
        .construct();
    assert_eq!(url, Ok("/badge/freebsd/zsh.svg".to_string()));
}

#[test]
fn a_place_may_stand_twice() {
    let url = UrlConstructor::new("{a}/{a}").with_field("a", "x").construct();
    assert_eq!(url, Ok("x/x".to_string()));
}

#[test]
fn other_fields_make_the_query_string_in_their_order() {
    let url = UrlConstructor::new("/project/{name}/versions")
        .with_field("page", "2")
        .with_field("name", "zsh")
        .with_field("sort", "asc")
        .construct();
    assert_eq!(url, Ok("/project/zsh/versions?page=2&sort=asc".to_string()));
}

#[test]
fn a_field_bound_again_keeps_its_place_and_takes_the_new_value() {
    let url = UrlConstructor::new("/p")
        .with_fields(&[("a", "1"), ("b", "2"), ("a", "3")])
        .with_field("b", "")
        .construct();
    assert_eq!(url, Ok("/p?a=3&b=".to_string()));
}

#[test]
fn values_and_names_are_percent_encoded() {
    let url = UrlConstructor::new("/m/{who}")
        .with_field("who", "a b/c@d.é~_-.")
        .with_field("q&x", "1=2?")
        .construct();
    assert_eq!(
        url,
        Ok("/m/a%20b%2Fc%40d.%C3%A9~_-.?q%26x=1%3D2%3F".to_string())
    );
}

#[test]
fn every_byte_of_a_letter_is_encoded_in_upper_case() {
    let url = UrlConstructor::new("{v}").with_field("v", "\u{0}\u{7f}я€😀%").construct();
    assert_eq!(
        url,
        Ok("%00%7F%D1%8F%E2%82%AC%F0%9F%98%80%25".to_string())
    );
}

#[test]
fn a_missing_field_is_named() {
    let url = UrlConstructor::new("/{a}/{b}/{c}").with_field("a", "x").construct();
    assert_eq!(url, Err(UrlError::MissingField("b".to_string())));
}

#[test]
fn a_place_that_is_not_closed_is_an_error() {
    assert_eq!(
        UrlConstructor::new("/a/{name").with_field("name", "x").construct(),
        Err(UrlError::UnclosedPlace)
    );
    assert_eq!(
        UrlConstructor::new("/{a}/{").construct(),
        Err(UrlError::MissingField("a".to_string()))
    );
    assert_eq!(
        UrlConstructor::new("/{a}/{").with_field("a", "x").construct(),
        Err(UrlError::UnclosedPlace)
    );
}

#[test]
fn owned_fields_bind_like_borrowed_ones() {
    let owned = vec![pair("a", "1"), pair("b", "2"), pair("a", "3")];
    let url = UrlConstructor::new("/{b}").with_owned_fields(&owned).construct();
    assert_eq!(url, Ok("/2?a=3".to_string()));
}

#[test]
fn endpoints_have_their_paths_and_sections() {
    assert_eq!(Endpoint::StaticFile.path(), "/static/{file_name}");
    assert_eq!(Endpoint::Index.path(), "/");
    assert_eq!(Endpoint::ProjectVersions.path(), "/project/{project_name}/versions");
    assert_eq!(
        Endpoint::LegacyBadgeVersionOnlyForRepo.path(),
        "/badge/version-only-for-repo/{repository_name}/{project_name}.svg"
    );
    assert_eq!(Endpoint::LegacyMetapackagePackages.path(), "/metapackage/{project_name}/packages");
    assert!(Endpoint::ProjectVersions.is_section(Section::Projects));
    assert!(!Endpoint::ProjectVersions.is_section(Section::Maintainers));
    assert!(Endpoint::Maintainer.is_section(Section::Maintainers));
    assert!(Endpoint::DocsAbout.is_section(Section::Docs));
    assert!(!Endpoint::StaticFile.is_section(Section::Docs));
    assert!(!Endpoint::Index.is_section(Section::News));
}

#[test]
fn url_for_fills_the_path_of_the_endpoint() {
    let context = TemplateContext::new_without_params(Endpoint::Index);
    assert_eq!(
        context.url_for(Endpoint::ProjectVersions, &[("project_name", "zsh")]),
        Ok("/project/zsh/versions".to_string())
    );
    assert_eq!(
        context.url_for(
            Endpoint::LegacyBadgeVersionOnlyForRepo,
            &[("repository_name", "foo"), ("project_name", "bar"), ("header", "baz")]
        ),
        Ok("/badge/version-only-for-repo/foo/bar.svg?header=baz".to_string())
    );
    assert_eq!(
        context.url_for(Endpoint::LegacyMetapackageVersions, &[("project_name", "zsh")]),
        Ok("/metapackage/zsh/versions".to_string())
    );
    assert_eq!(
        context.url_for(Endpoint::Projects, &[("search", "c++")]),
        Ok("/projects/?search=c%2B%2B".to_string())
    );
    assert_eq!(
        context.url_for(Endpoint::ProjectVersions, &[]),
        Err(UrlError::MissingField("project_name".to_string()))
    );
    assert_eq!(
        context.external_url_for(Endpoint::LegacyProjectRoot, &[("project_name", "zsh")]),
        Ok("https://repology.org/project/zsh".to_string())
    );
    assert_eq!(
        context.external_url_for(Endpoint::LegacyProjectRoot, &[]),
        Err(UrlError::MissingField("project_name".to_string()))
    );
}

#[test]
fn url_for_self_keeps_the_parameters_and_lets_fields_replace_them() {
    let context = TemplateContext::new(
        Endpoint::ProjectVersions,
        vec![pair("project_name", "zsh")],
        vec![pair("page", "2"), pair("sort", "asc")],
    );
    assert_eq!(
        context.url_for_self(&[]),
        Ok("/project/zsh/versions?page=2&sort=asc".to_string())
    );
    assert_eq!(
        context.url_for_self(&[("page", "3"), ("q", "x")]),
        Ok("/project/zsh/versions?page=3&sort=asc&q=x".to_string())
    );
    assert_eq!(
        context.url_for_self(&[("project_name", "bash")]),
        Ok("/project/bash/versions?page=2&sort=asc".to_string())
    );
    assert_eq!(
        context.external_url_for_self(&[("page", "3")]),
        Ok("https://repology.org/project/zsh/versions?page=3&sort=asc".to_string())
    );
    let bare = TemplateContext::new_without_params(Endpoint::ProjectVersions);
    assert_eq!(
        bare.url_for_self(&[]),
        Err(UrlError::MissingField("project_name".to_string()))
    );
    assert_eq!(
        bare.external_url_for_self(&[]),
        Err(UrlError::MissingField("project_name".to_string()))
    );
}

#[test]
fn static_files_are_linked_by_their_hashed_names() {
    let mut files = StaticFiles::new();
    files.add("repology.css", "repology.0123abcd.css");
    files.add("logo.svg", "logo.89ef.svg");
    files.add("repology.css", "repology.later.css");
    assert_eq!(
        files.by_orig_name("logo.svg").map(|file| file.hashed_name.clone()),
        Some("logo.89ef.svg".to_string())
    );
    assert_eq!(files.by_orig_name("logo.png"), None);

    let context = TemplateContext::new_without_params(Endpoint::News);
    assert_eq!(
        context.url_for_static(&files, "repology.css"),
        Ok("/static/repology.0123abcd.css".to_string())
    );
    assert_eq!(
        context.url_for_static(&files, "missing.css"),
        Err(UrlError::UnknownStaticFile("missing.css".to_string()))
    );
    assert_eq!(
        context.url_for_unversioned_static("repology.css"),
        Ok("/static/repology.css".to_string())
    );
    assert_eq!(
        context.external_url_for_static(&files, "logo.svg"),
        Ok("https://repology.org/static/logo.89ef.svg".to_string())
    );
    assert_eq!(
        context.external_url_for_static(&files, "missing.css"),
        Err(UrlError::UnknownStaticFile("missing.css".to_string()))
    );
    assert_eq!(
        context.external_url_for_unversioned_static("a b.css"),
        Ok("https://repology.org/static/a%20b.css".to_string())
    );
    assert_eq!(REPOLOGY_HOSTNAME, "https://repology.org");
}

#[test]
fn a_context_knows_its_endpoint_and_section() {
    let context = TemplateContext::new_without_params(Endpoint::Maintainer);
    assert_eq!(context.endpoint, Endpoint::Maintainer);
    assert_eq!(context.endpoint(), Endpoint::Maintainer);
    assert!(context.is_endpoint(Endpoint::Maintainer));
    assert!(!context.is_endpoint(Endpoint::Maintainers));
    assert!(context.is_section(Section::Maintainers));
    assert!(!context.is_section(Section::Projects));
    assert!(!context.needs_ipv6_notice());
    let number: u32 = 7;
    assert_eq!(context.deref(&number), 7);
    assert_eq!(context.deref(&'x'), 'x');
}
