//! What a page template knows of the page it renders: which page it is,
//! with which parameters it was asked for, and how to link to other pages.

use vstd::prelude::*;
use vstd::string::StringExecFns;
use crate::endpoints::{Endpoint, Section};
use crate::static_files::{file_named, StaticFiles};
use crate::url_for::{
    address, bind, bind_all, outcome_view, pair_views, prefixed, FieldsView, UrlConstructor,
    UrlError, UrlErrorView,
};

verus! {

/// The address of the site, before the path of a page.
pub const REPOLOGY_HOSTNAME: &'static str = "https://repology.org";

/// The fields that fill the one place of the pattern of static files.
pub open spec fn static_file_fields(file_name: Seq<char>) -> FieldsView {
    bind(Seq::empty(), "file_name"@, file_name)
}

/// The context of one page that is being rendered.
pub struct TemplateContext {
    pub endpoint: Endpoint,
    params: Vec<(String, String)>,
}

/// An address of the site outside of it: the address of the site before the
/// path.
fn external(outcome: Result<String, UrlError>) -> (full: Result<String, UrlError>)
    ensures
        outcome_view(full) == prefixed(REPOLOGY_HOSTNAME@, outcome_view(outcome)),
{
    match outcome {
        Ok(path) => {
            let mut full = REPOLOGY_HOSTNAME.to_owned();
            full.append(path.as_str());
            Ok(full)
        },
        Err(error) => Err(error),
    }
}

/// What a [`TemplateContext`] holds, as plain values.
pub struct TemplateContextView {
    /// The page that is rendered.
    pub endpoint: Endpoint,
    /// The parameters with which the page was asked for: those of its path,
    /// then those of its query string.
    pub params: FieldsView,
}

impl View for TemplateContext {
    type V = TemplateContextView;

    closed spec fn view(&self) -> TemplateContextView {
        TemplateContextView { endpoint: self.endpoint, params: self.params.deep_view() }
    }
}

impl TemplateContext {
    /// The context of the page `endpoint`, asked for with the given
    /// parameters of its path and of its query string.
    pub fn new(
        endpoint: Endpoint,
        path_params: Vec<(String, String)>,
        query_params: Vec<(String, String)>,
    ) -> (context: TemplateContext)
        ensures
            context@.endpoint == endpoint,
            context@.params == path_params.deep_view() + query_params.deep_view(),
    {
        let mut params = path_params;
        let mut more = query_params;
        params.append(&mut more);
        let context = TemplateContext { endpoint, params };
        assert(context@.params =~= path_params.deep_view() + query_params.deep_view());
        context
    }

    /// The context of the page `endpoint`, asked for without parameters.
    pub fn new_without_params(endpoint: Endpoint) -> (context: TemplateContext)
        ensures
            context@.endpoint == endpoint,
            context@.params == Seq::<(Seq<char>, Seq<char>)>::empty(),
    {
        let context = TemplateContext { endpoint, params: Vec::new() };
        assert(context@.params =~= Seq::<(Seq<char>, Seq<char>)>::empty());
        context
    }

    /// The path of a static file, under the name it is served with. The
    /// file is looked up in `files` by the name it was written with.
    pub fn url_for_static(&self, files: &StaticFiles, file_name: &str) -> (outcome: Result<
        String,
        UrlError,
    >)
        ensures
            outcome_view(outcome) == match file_named(files@, file_name@) {
                Some(file) => address(
                    Endpoint::StaticFile.path_spec(),
                    static_file_fields(file.hashed_name),
                ),
                None => Err(UrlErrorView::UnknownStaticFile(file_name@)),
            },
    {
        match files.by_orig_name(file_name) {
            Some(file) => UrlConstructor::new(Endpoint::StaticFile.path()).with_field(
                "file_name",
                file.hashed_name.as_str(),
            ).construct(),
            None => Err(UrlError::UnknownStaticFile(file_name.to_owned())),
        }
    }

    /// The path of a static file, under the name it was written with.
    pub fn url_for_unversioned_static(&self, file_name: &str) -> (outcome: Result<
        String,
        UrlError,
    >)
        ensures
            outcome_view(outcome) == address(
                Endpoint::StaticFile.path_spec(),
                static_file_fields(file_name@),
            ),
    {
        UrlConstructor::new(Endpoint::StaticFile.path()).with_field(
            "file_name",
            file_name,
        ).construct()
    }

    /// The full address of a static file, under the name it is served with.
    pub fn external_url_for_static(&self, files: &StaticFiles, file_name: &str) -> (outcome:
        Result<String, UrlError>)
        ensures
            outcome_view(outcome) == prefixed(
                REPOLOGY_HOSTNAME@,
                match file_named(files@, file_name@) {
                    Some(file) => address(
                        Endpoint::StaticFile.path_spec(),
                        static_file_fields(file.hashed_name),
                    ),
                    None => Err(UrlErrorView::UnknownStaticFile(file_name@)),
                },
            ),
    {
        external(self.url_for_static(files, file_name))
    }

    /// The full address of a static file, under the name it was written
    /// with.
    pub fn external_url_for_unversioned_static(&self, file_name: &str) -> (outcome: Result<
        String,
        UrlError,
    >)
        ensures
            outcome_view(outcome) == prefixed(
                REPOLOGY_HOSTNAME@,
                address(Endpoint::StaticFile.path_spec(), static_file_fields(file_name@)),
            ),
    {
        external(self.url_for_unversioned_static(file_name))
    }

    /// The path of the page `endpoint` with the given fields.
    pub fn url_for(&self, endpoint: Endpoint, fields: &[(&str, &str)]) -> (outcome: Result<
        String,
        UrlError,
    >)
        ensures
            outcome_view(outcome) == address(
                endpoint.path_spec(),
                bind_all(Seq::empty(), pair_views(fields@)),
            ),
    {
        UrlConstructor::new(endpoint.path()).with_fields(fields).construct()
    }

    /// The full address of the page `endpoint` with the given fields.
    pub fn external_url_for(&self, endpoint: Endpoint, fields: &[(&str, &str)]) -> (outcome:
        Result<String, UrlError>)
        ensures
            outcome_view(outcome) == prefixed(
                REPOLOGY_HOSTNAME@,
                address(endpoint.path_spec(), bind_all(Seq::empty(), pair_views(fields@))),
            ),
    {
        external(self.url_for(endpoint, fields))
    }

    /// The path of the page that is rendered, with its own parameters and
    /// over them the given fields: a field replaces the parameter of its
    /// name.
    pub fn url_for_self(&self, fields: &[(&str, &str)]) -> (outcome: Result<String, UrlError>)
        ensures
            outcome_view(outcome) == address(
                self@.endpoint.path_spec(),
                bind_all(bind_all(Seq::empty(), self@.params), pair_views(fields@)),
            ),
    {
        UrlConstructor::new(self.endpoint.path()).with_owned_fields(&self.params).with_fields(
            fields,
        ).construct()
    }

    /// The full address of the page that is rendered, with its own
    /// parameters and over them the given fields.
    pub fn external_url_for_self(&self, fields: &[(&str, &str)]) -> (outcome: Result<
        String,
        UrlError,
    >)
        ensures
            outcome_view(outcome) == prefixed(
                REPOLOGY_HOSTNAME@,
                address(
                    self@.endpoint.path_spec(),
                    bind_all(bind_all(Seq::empty(), self@.params), pair_views(fields@)),
                ),
            ),
    {
        external(self.url_for_self(fields))
    }

    /// The page that is rendered.
    pub fn endpoint(&self) -> (endpoint: Endpoint)
        ensures
            endpoint == self@.endpoint,
    {
        self.endpoint
    }

    /// Whether the page that is rendered belongs to `section`.
    pub fn is_section(&self, section: Section) -> (inside: bool)
        ensures
            inside == (self@.endpoint.section() == Some(section)),
    {
        self.endpoint.is_section(section)
    }

    /// Whether the page that is rendered is `endpoint`.
    pub fn is_endpoint(&self, endpoint: Endpoint) -> (same: bool)
        ensures
            same == (self@.endpoint == endpoint),
    {
        self.endpoint == endpoint
    }

    /// Whether the page should tell its reader about IPv6: it never does.
    pub fn needs_ipv6_notice(&self) -> (needed: bool)
        ensures
            !needed,
    {
        false
    }

    /// The value behind a reference, for templates that cannot take it
    /// themselves.
    pub fn deref<T: Copy>(&self, r: &T) -> (value: T)
        ensures
            value == *r,
    {
        *r
    }
}

} // verus!
