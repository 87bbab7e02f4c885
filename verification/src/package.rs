//! The validated package record and the values it is made of.

use vstd::prelude::*;
use vstd::hash_map::StringHashMap;
use crate::text::{copy_range, find_char, first_position, lemma_first_position};

verus! {

/// What a link attached to a package points to.
#[derive(Clone, Copy, Debug, PartialEq, Eq, Structural)]
pub enum LinkType {
    UpstreamHomepage,
    UpstreamDownload,
    UpstreamRepository,
    UpstreamIssueTracker,
    ProjectHomepage,
    PackageHomepage,
    PackageDownload,
    PackageSources,
    PackageIssueTracker,
    PackageRecipe,
    PackageRecipeRaw,
    PackagePatch,
    PackagePatchRaw,
    PackageBuildLog,
    PackageBuildLogRaw,
    PackageNewVersionChecker,
    UpstreamDocumentation,
    UpstreamChangelog,
    ProjectDownload,
    UpstreamDonation,
    UpstreamDiscussion,
    UpstreamCoverage,
    UpstreamCi,
    UpstreamWiki,
    PackageStatistics,
    PackageBuildStatus,
    PackageBuildLogs,
    UpstreamDownloadPage,
    Other,
}

/// Flags that tell later stages how to treat a package, as a bit mask that is
/// carried through unread.
#[derive(Clone, Copy, Debug, PartialEq, Eq, Structural)]
pub struct PackageFlags {
    pub bits: u32,
}

impl PackageFlags {
    /// No flag set.
    pub fn empty() -> (flags: PackageFlags)
        ensures
            flags.bits == 0,
    {
        PackageFlags { bits: 0 }
    }
}

/// A link of a package: the address up to its first `#`, and what follows
/// that `#`, if there is one.
#[derive(Clone, Debug, PartialEq, Eq)]
pub struct Link {
    pub link_type: LinkType,
    pub url: String,
    pub fragment: Option<String>,
}

/// What a [`Link`] holds, as plain text.
pub struct LinkView {
    pub link_type: LinkType,
    pub url: Seq<char>,
    pub fragment: Option<Seq<char>>,
}

impl View for Link {
    type V = LinkView;

    open spec fn view(&self) -> LinkView {
        LinkView {
            link_type: self.link_type,
            url: self.url@,
            fragment: self.fragment.deep_view(),
        }
    }
}

impl LinkView {
    /// The link that a raw address stands for: the address is cut at its
    /// first `#`, which belongs to neither part.
    pub open spec fn split(link_type: LinkType, raw: Seq<char>) -> LinkView {
        let at = first_position(raw, '#');
        LinkView {
            link_type,
            url: raw.take(at),
            fragment: if at < raw.len() {
                Some(raw.skip(at + 1))
            } else {
                None
            },
        }
    }

    /// The links that a list of raw addresses stands for, in order.
    pub open spec fn split_all(link_type: LinkType, raws: Seq<Seq<char>>) -> Seq<LinkView> {
        raws.map_values(|raw: Seq<char>| Self::split(link_type, raw))
    }

    /// The address part of a split link holds no `#`. A link without a
    /// fragment is the whole raw address; one with a fragment gives the raw
    /// address back when its two parts are joined by `#`.
    pub proof fn lemma_split_parts(link_type: LinkType, raw: Seq<char>)
        ensures
            Self::split(link_type, raw).link_type == link_type,
            !Self::split(link_type, raw).url.contains('#'),
            match Self::split(link_type, raw).fragment {
                Some(fragment) => raw == Self::split(link_type, raw).url + seq!['#'] + fragment,
                None => raw == Self::split(link_type, raw).url && !raw.contains('#'),
            },
    {
        lemma_first_position(raw, '#');
        let at = first_position(raw, '#');
        let link = Self::split(link_type, raw);
        if link.url.contains('#') {
            let i = choose|i: int| 0 <= i < link.url.len() && link.url[i] == '#';
            assert(raw[i] == '#');
        }
        if at < raw.len() {
            assert(raw =~= raw.take(at) + seq!['#'] + raw.skip(at + 1));
        } else {
            assert(raw =~= raw.take(at));
        }
    }
}

impl Link {
    /// Splits a raw address at its first `#` into a link of the given type.
    pub fn parse(link_type: LinkType, raw: &str) -> (link: Link)
        ensures
            link@ == LinkView::split(link_type, raw@),
    {
        let length = raw.unicode_len();
        let at = find_char(raw, '#');
        if at < length {
            let url = copy_range(raw, 0, at);
            let fragment = copy_range(raw, at + 1, length);
            assert(raw@.take(at as int) =~= raw@.subrange(0, at as int));
            assert(raw@.skip(at + 1) =~= raw@.subrange(at + 1, length as int));
            Link { link_type, url, fragment: Some(fragment) }
        } else {
            assert(raw@.take(at as int) =~= raw@);
            Link { link_type, url: raw.to_owned(), fragment: None }
        }
    }
}

/// The views of a list of links, in order.
pub open spec fn link_views(links: Seq<Link>) -> Seq<LinkView> {
    links.map_values(|link: Link| link@)
}

/// A value of a field that the record has no place of its own for.
#[derive(Clone, Debug, PartialEq, Eq)]
pub enum ExtraField {
    /// A single string.
    OneValue(String),
    /// A list of strings, in the order given.
    ManyValues(Vec<String>),
}

/// What an [`ExtraField`] holds, as plain text.
pub enum ExtraFieldView {
    OneValue(Seq<char>),
    ManyValues(Seq<Seq<char>>),
}

impl View for ExtraField {
    type V = ExtraFieldView;

    open spec fn view(&self) -> ExtraFieldView {
        match self {
            ExtraField::OneValue(value) => ExtraFieldView::OneValue(value@),
            ExtraField::ManyValues(values) => ExtraFieldView::ManyValues(values.deep_view()),
        }
    }
}

/// The views of the values of a map of extra fields, under the same keys.
pub open spec fn extra_field_views(fields: Map<Seq<char>, ExtraField>) -> Map<
    Seq<char>,
    ExtraFieldView,
> {
    fields.map_values(|field: ExtraField| field@)
}

/// The extra fields of a package, by name. There are finitely many, and
/// their order does not matter.
pub struct ExtraFields {
    fields: StringHashMap<ExtraField>,
}

impl View for ExtraFields {
    type V = Map<Seq<char>, ExtraFieldView>;

    closed spec fn view(&self) -> Map<Seq<char>, ExtraFieldView> {
        if self.fields@.dom().finite() {
            extra_field_views(self.fields@)
        } else {
            Map::empty()
        }
    }
}

impl ExtraFields {
    #[verifier::type_invariant]
    spec fn finitely_many(self) -> bool {
        self.fields@.dom().finite()
    }

    /// There are finitely many extra fields.
    pub proof fn lemma_finite(self)
        ensures
            self@.dom().finite(),
    {
        if self.fields@.dom().finite() {
            assert(extra_field_views(self.fields@).dom() =~= self.fields@.dom());
        }
    }

    /// No extra fields.
    pub fn new() -> (fields: ExtraFields)
        ensures
            fields@ == Map::<Seq<char>, ExtraFieldView>::empty(),
    {
        let fields = ExtraFields { fields: StringHashMap::new() };
        assert(fields@ =~= Map::<Seq<char>, ExtraFieldView>::empty());
        fields
    }

    /// The fields with `name` holding `field`, in place of what it held.
    pub fn with(self, name: String, field: ExtraField) -> (fields: ExtraFields)
        ensures
            fields@ == self@.insert(name@, field@),
    {
        proof {
            use_type_invariant(&self);
        }
        let mut held = self.fields;
        held.insert(name, field);
        let fields = ExtraFields { fields: held };
        assert(fields@ =~= self@.insert(name@, field@));
        fields
    }

    /// The field called `name`, if there is one.
    pub fn get(&self, name: &str) -> (found: Option<&ExtraField>)
        ensures
            match found {
                Some(field) => self@.contains_key(name@) && self@[name@] == field@,
                None => !self@.contains_key(name@),
            },
    {
        proof {
            use_type_invariant(self);
        }
        self.fields.get(name)
    }

    /// The number of extra fields.
    pub fn len(&self) -> (count: usize)
        ensures
            count == self@.len(),
    {
        proof {
            use_type_invariant(self);
            assert(extra_field_views(self.fields@).dom() =~= self.fields@.dom());
        }
        self.fields.len()
    }

    /// Whether there is no extra field.
    pub fn is_empty(&self) -> (none: bool)
        ensures
            none == (self@.len() == 0),
    {
        self.len() == 0
    }
}

/// A package as a repository describes it, after validation.
///
/// The project name seed, the display name and the version are never empty,
/// and there is a source name, a binary name or a list of binary names, none
/// of them empty.
pub struct ParsedPackage {
    pub subrepo: Option<String>,
    pub srcname: Option<String>,
    pub binname: Option<String>,
    pub binnames: Vec<String>,
    pub trackname: Option<String>,
    pub visiblename: String,
    pub projectname_seed: String,
    pub rawversion: String,
    pub arch: Option<String>,
    pub maintainers: Vec<String>,
    pub category: Option<String>,
    pub comment: Option<String>,
    pub licenses: Vec<String>,
    pub extrafields: ExtraFields,
    pub cpe_vendor: Option<String>,
    pub cpe_product: Option<String>,
    pub cpe_edition: Option<String>,
    pub cpe_lang: Option<String>,
    pub cpe_sw_edition: Option<String>,
    pub cpe_target_sw: Option<String>,
    pub cpe_target_hw: Option<String>,
    pub cpe_other: Option<String>,
    pub links: Vec<Link>,
    pub version: String,
    pub flags: PackageFlags,
    pub flavors: Vec<String>,
}

/// What a [`ParsedPackage`] holds, as plain text.
pub struct ParsedPackageView {
    pub subrepo: Option<Seq<char>>,
    pub srcname: Option<Seq<char>>,
    pub binname: Option<Seq<char>>,
    pub binnames: Seq<Seq<char>>,
    pub trackname: Option<Seq<char>>,
    pub visiblename: Seq<char>,
    pub projectname_seed: Seq<char>,
    pub rawversion: Seq<char>,
    pub arch: Option<Seq<char>>,
    pub maintainers: Seq<Seq<char>>,
    pub category: Option<Seq<char>>,
    pub comment: Option<Seq<char>>,
    pub licenses: Seq<Seq<char>>,
    pub extrafields: Map<Seq<char>, ExtraFieldView>,
    pub cpe_vendor: Option<Seq<char>>,
    pub cpe_product: Option<Seq<char>>,
    pub cpe_edition: Option<Seq<char>>,
    pub cpe_lang: Option<Seq<char>>,
    pub cpe_sw_edition: Option<Seq<char>>,
    pub cpe_target_sw: Option<Seq<char>>,
    pub cpe_target_hw: Option<Seq<char>>,
    pub cpe_other: Option<Seq<char>>,
    pub links: Seq<LinkView>,
    pub version: Seq<char>,
    pub flags: PackageFlags,
    pub flavors: Seq<Seq<char>>,
}

impl View for ParsedPackage {
    type V = ParsedPackageView;

    open spec fn view(&self) -> ParsedPackageView {
        ParsedPackageView {
            subrepo: self.subrepo.deep_view(),
            srcname: self.srcname.deep_view(),
            binname: self.binname.deep_view(),
            binnames: self.binnames.deep_view(),
            trackname: self.trackname.deep_view(),
            visiblename: self.visiblename@,
            projectname_seed: self.projectname_seed@,
            rawversion: self.rawversion@,
            arch: self.arch.deep_view(),
            maintainers: self.maintainers.deep_view(),
            category: self.category.deep_view(),
            comment: self.comment.deep_view(),
            licenses: self.licenses.deep_view(),
            extrafields: self.extrafields@,
            cpe_vendor: self.cpe_vendor.deep_view(),
            cpe_product: self.cpe_product.deep_view(),
            cpe_edition: self.cpe_edition.deep_view(),
            cpe_lang: self.cpe_lang.deep_view(),
            cpe_sw_edition: self.cpe_sw_edition.deep_view(),
            cpe_target_sw: self.cpe_target_sw.deep_view(),
            cpe_target_hw: self.cpe_target_hw.deep_view(),
            cpe_other: self.cpe_other.deep_view(),
            links: link_views(self.links@),
            version: self.version@,
            flags: self.flags,
            flavors: self.flavors.deep_view(),
        }
    }
}

impl ParsedPackageView {
    /// What every validated record satisfies.
    pub open spec fn valid(self) -> bool {
        &&& self.projectname_seed.len() > 0
        &&& self.visiblename.len() > 0
        &&& self.version.len() > 0
        &&& self.srcname is Some || self.binname is Some || self.binnames.len() > 0
        &&& self.srcname matches Some(name) ==> name.len() > 0
        &&& self.binname matches Some(name) ==> name.len() > 0
        &&& forall|i: int| 0 <= i < self.binnames.len() ==> self.binnames[i].len() > 0
    }
}

} // verus!
