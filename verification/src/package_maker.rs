//! The maker that gathers the fields of one package and turns them into a
//! validated record.

use vstd::prelude::*;
use core::mem::swap;
use vstd::pervasive::unreached;
use crate::error::PackageParsingError;
use crate::maker_view::PackageMakerView;
use crate::name_type::{lemma_single_role_included, NameRole, NameType};
use crate::package::{
    link_views, ExtraField, ExtraFieldView, ExtraFields, Link, LinkType, LinkView, PackageFlags,
    ParsedPackage, ParsedPackageView,
};
use crate::text::{copy_all, str_views};

verus! {

/// A version as the repository wrote it, and in the form used to compare it.
pub struct VersionPair {
    raw: String,
    normalized: String,
}

/// Gathers what a parser finds out about one package, in any order, and
/// turns it into a [`ParsedPackage`] once.
pub struct PackageMaker {
    subrepo: Option<String>,
    srcname: Option<String>,
    binname: Option<String>,
    binnames: Vec<String>,
    trackname: Option<String>,
    visiblename: Option<String>,
    projectname_seed: Option<String>,
    versions: Option<VersionPair>,
    arch: Option<String>,
    maintainers: Vec<String>,
    category: Option<String>,
    comment: Option<String>,
    licenses: Vec<String>,
    extrafields: ExtraFields,
    cpe_vendor: Option<String>,
    cpe_product: Option<String>,
    cpe_edition: Option<String>,
    cpe_lang: Option<String>,
    cpe_sw_edition: Option<String>,
    cpe_target_sw: Option<String>,
    cpe_target_hw: Option<String>,
    cpe_other: Option<String>,
    links: Vec<Link>,
    flags: PackageFlags,
    flavors: Vec<String>,
}

impl View for PackageMaker {
    type V = PackageMakerView;

    closed spec fn view(&self) -> PackageMakerView {
        PackageMakerView {
            subrepo: self.subrepo.deep_view(),
            srcname: self.srcname.deep_view(),
            binname: self.binname.deep_view(),
            binnames: self.binnames.deep_view(),
            trackname: self.trackname.deep_view(),
            visiblename: self.visiblename.deep_view(),
            projectname_seed: self.projectname_seed.deep_view(),
            rawversion: match self.versions {
                Some(pair) => Some(pair.raw@),
                None => None,
            },
            arch: self.arch.deep_view(),
            maintainers: self.maintainers.deep_view(),
            category: self.category.deep_view(),
            comment: self.comment.deep_view(),
            licenses: self.licenses.deep_view(),
            extrafields: self.extrafields@,
            cpe_vendor: self.cpe_vendor.deep_view(),
            cpe_product: self.cpe_product.deep_view(),
            cpe_edition: self.cpe_edition.deep_view(),
            cpe_lang: self.cpe_lang.deep_view(),
            cpe_sw_edition: self.cpe_sw_edition.deep_view(),
            cpe_target_sw: self.cpe_target_sw.deep_view(),
            cpe_target_hw: self.cpe_target_hw.deep_view(),
            cpe_other: self.cpe_other.deep_view(),
            links: link_views(self.links@),
            version: match self.versions {
                Some(pair) => Some(pair.normalized@),
                None => None,
            },
            flags: self.flags,
            flavors: self.flavors.deep_view(),
        }
    }
}

impl Default for PackageMaker {
    /// A maker to which nothing has been given yet.
    fn default() -> (maker: PackageMaker)
        ensures
            maker@ == PackageMakerView::empty(),
    {
        let maker = PackageMaker {
            subrepo: None,
            srcname: None,
            binname: None,
            binnames: Vec::new(),
            trackname: None,
            visiblename: None,
            projectname_seed: None,
            versions: None,
            arch: None,
            maintainers: Vec::new(),
            category: None,
            comment: None,
            licenses: Vec::new(),
            extrafields: ExtraFields::new(),
            cpe_vendor: None,
            cpe_product: None,
            cpe_edition: None,
            cpe_lang: None,
            cpe_sw_edition: None,
            cpe_target_sw: None,
            cpe_target_hw: None,
            cpe_other: None,
            links: Vec::new(),
            flags: PackageFlags::empty(),
            flavors: Vec::new(),
        };
        proof {
            let view = maker@;
            let empty = PackageMakerView::empty();
            assert(view.binnames =~= empty.binnames);
            assert(view.maintainers =~= empty.maintainers);
            assert(view.licenses =~= empty.licenses);
            assert(view.flavors =~= empty.flavors);
            assert(view.links =~= empty.links);
            assert(view.extrafields =~= empty.extrafields);
        }
        maker
    }
}

/// Whether one of the names is the empty string.
fn any_empty(names: &Vec<String>) -> (found: bool)
    ensures
        found == exists|i: int|
            0 <= i < names.len() && #[trigger] names.deep_view()[i].len() == 0,
{
    let mut at: usize = 0;
    while at < names.len()
        invariant
            at <= names.len(),
            forall|i: int| 0 <= i < at ==> (#[trigger] names.deep_view()[i]).len() != 0,
        decreases names.len() - at,
    {
        if names[at].as_str().is_empty() {
            assert(names.deep_view()[at as int].len() == 0);
            return true;
        }
        at += 1;
    }
    false
}

/// Whether a name is there and is the empty string.
fn is_empty_name(name: &Option<String>) -> (empty: bool)
    ensures
        empty == (name.deep_view() == Some(Seq::<char>::empty())),
{
    match name {
        Some(text) => {
            let empty = text.as_str().is_empty();
            assert(empty == (text@ =~= Seq::<char>::empty()));
            empty
        },
        None => false,
    }
}

impl PackageMaker {
    /// In every maker the raw and the normalized version are there together
    /// or not at all.
    pub proof fn lemma_versions_paired(self)
        ensures
            self@.versions_paired(),
    {
    }

    /// Every maker holds finitely many extra fields.
    pub proof fn lemma_extrafields_finite(self)
        ensures
            self@.extrafields.dom().finite(),
    {
        self.extrafields.lemma_finite();
    }

    /// Whether `set_names` may be called with these roles: none of them has
    /// a name yet.
    pub fn can_set_names(&self, name_types: NameType) -> (free: bool)
        ensures
            free == self@.names_unset(name_types@),
    {
        let taken = (name_types.contains(NameType::SrcName()) && self.srcname.is_some())
            || (name_types.contains(NameType::BinName()) && self.binname.is_some())
            || (name_types.contains(NameType::TrackName()) && self.trackname.is_some())
            || (name_types.contains(NameType::DisplayName()) && self.visiblename.is_some())
            || (name_types.contains(NameType::ProjectNameSeed())
            && self.projectname_seed.is_some());
        proof {
            let roles = name_types@;
            let view = self@;
            lemma_single_role_included(roles);
            if taken {
                assert(!view.names_unset(roles)) by {
                    if roles.contains(NameRole::SrcName) && view.srcname is Some {
                        assert(view.name_slot(NameRole::SrcName) is Some);
                    } else if roles.contains(NameRole::BinName) && view.binname is Some {
                        assert(view.name_slot(NameRole::BinName) is Some);
                    } else if roles.contains(NameRole::TrackName) && view.trackname is Some {
                        assert(view.name_slot(NameRole::TrackName) is Some);
                    } else if roles.contains(NameRole::DisplayName) && view.visiblename is Some {
                        assert(view.name_slot(NameRole::DisplayName) is Some);
                    } else {
                        assert(view.name_slot(NameRole::ProjectNameSeed) is Some);
                    }
                }
            }
        }
        !taken
    }

    /// Assigns `name` to every role of `name_types`, and hands the maker back
    /// for further calls.
    ///
    /// A role is assigned once in the life of a maker. To assign one again is
    /// a defect of the calling parser, which the precondition rules out; a
    /// caller that is not verified and breaks it is stopped by a panic.
    pub fn set_names(&mut self, name: &str, name_types: NameType) -> (maker: &mut Self)
        requires
            old(self)@.names_unset(name_types@),
        ensures
            maker@ == old(self)@.with_names(name@, name_types@),
            *final(self) == *final(maker),
    {
        proof {
            let roles = name_types@;
            lemma_single_role_included(roles);
            assert(roles.contains(NameRole::SrcName) ==> old(self)@.name_slot(NameRole::SrcName)
                is None);
            assert(roles.contains(NameRole::BinName) ==> old(self)@.name_slot(NameRole::BinName)
                is None);
            assert(roles.contains(NameRole::TrackName) ==> old(self)@.name_slot(
                NameRole::TrackName,
            ) is None);
            assert(roles.contains(NameRole::DisplayName) ==> old(self)@.name_slot(
                NameRole::DisplayName,
            ) is None);
            assert(roles.contains(NameRole::ProjectNameSeed) ==> old(self)@.name_slot(
                NameRole::ProjectNameSeed,
            ) is None);
        }
        if name_types.contains(NameType::SrcName()) {
            if self.srcname.is_some() {
                unreached::<()>();
            }
            self.srcname = Some(name.to_owned());
        }
        if name_types.contains(NameType::BinName()) {
            if self.binname.is_some() {
                unreached::<()>();
            }
            self.binname = Some(name.to_owned());
        }
        if name_types.contains(NameType::TrackName()) {
            if self.trackname.is_some() {
                unreached::<()>();
            }
            self.trackname = Some(name.to_owned());
        }
        if name_types.contains(NameType::DisplayName()) {
            if self.visiblename.is_some() {
                unreached::<()>();
            }
            self.visiblename = Some(name.to_owned());
        }
        if name_types.contains(NameType::ProjectNameSeed()) {
            if self.projectname_seed.is_some() {
                unreached::<()>();
            }
            self.projectname_seed = Some(name.to_owned());
        }
        self
    }

    /// Appends the names, in order, to the list of binary names. Names that
    /// are there already are appended again.
    pub fn add_binnames(&mut self, binnames: &[&str]) -> (maker: &mut Self)
        ensures
            maker@ == old(self)@.with_binnames(str_views(binnames@)),
            *final(self) == *final(maker),
    {
        let mut names = copy_all(binnames);
        self.binnames.append(&mut names);
        assert(self@.binnames =~= old(self)@.binnames + str_views(binnames@));
        self
    }

    /// Takes `version` as the raw and as the normalized version, in place of
    /// any version given before.
    pub fn set_version(&mut self, version: &str) -> (maker: &mut Self)
        ensures
            maker@ == old(self)@.with_version(version@, version@),
            *final(self) == *final(maker),
    {
        self.versions = Some(VersionPair { raw: version.to_owned(), normalized: version.to_owned() });
        self
    }

    /// Takes `version` as the raw version and what `stripper` makes of it as
    /// the normalized one, in place of any version given before.
    pub fn set_version_stripped<F: Fn(&str) -> String>(
        &mut self,
        version: &str,
        stripper: F,
    ) -> (maker: &mut Self)
        requires
            call_requires(stripper, (version,)),
        ensures
            exists|stripped: String|
                call_ensures(stripper, (version,), stripped) && maker@ == old(self)@.with_version(
                    version@,
                    stripped@,
                ),
            *final(self) == *final(maker),
    {
        let stripped = stripper(version);
        let ghost witness = stripped;
        self.versions = Some(VersionPair { raw: version.to_owned(), normalized: stripped });
        assert(call_ensures(stripper, (version,), witness) && self@ == old(self)@.with_version(
            version@,
            witness@,
        ));
        self
    }

    /// Takes `summary` as the summary, in place of any given before.
    pub fn set_summary(&mut self, summary: &str) -> (maker: &mut Self)
        ensures
            maker@ == old(self)@.with_summary(summary@),
            *final(self) == *final(maker),
    {
        self.comment = Some(summary.to_owned());
        self
    }

    /// Appends a maintainer to the list of maintainers, as given.
    pub fn add_maintainer(&mut self, maintainer: &str) -> (maker: &mut Self)
        ensures
            maker@ == old(self)@.with_maintainers(seq![maintainer@]),
            *final(self) == *final(maker),
    {
        self.maintainers.push(maintainer.to_owned());
        assert(self@.maintainers =~= old(self)@.maintainers + seq![maintainer@]);
        self
    }

    /// Appends the maintainers, in order, to the list of maintainers.
    pub fn add_maintainers(&mut self, maintainers: &[&str]) -> (maker: &mut Self)
        ensures
            maker@ == old(self)@.with_maintainers(str_views(maintainers@)),
            *final(self) == *final(maker),
    {
        let ghost before = self@;
        let ghost names = str_views(maintainers@);
        let mut at: usize = 0;
        assert(self@.maintainers =~= before.maintainers + names.take(0));
        while at < maintainers.len()
            invariant
                at <= maintainers.len(),
                names == str_views(maintainers@),
                self@ == before.with_maintainers(names.take(at as int)),
            decreases maintainers.len() - at,
        {
            let ghost earlier = self@;
            self.add_maintainer(maintainers[at]);
            assert(self@.maintainers =~= before.maintainers + names.take(at + 1)) by {
                assert(self@.maintainers == earlier.maintainers + seq![maintainers[at as int]@]);
                assert(names.take(at + 1) =~= names.take(at as int) + seq![names[at as int]]);
            }
            at += 1;
        }
        assert(names.take(at as int) =~= names);
        self
    }

    /// Appends a license to the list of licenses, as given.
    pub fn add_license(&mut self, license: &str) -> (maker: &mut Self)
        ensures
            maker@ == old(self)@.with_licenses(seq![license@]),
            *final(self) == *final(maker),
    {
        self.licenses.push(license.to_owned());
        assert(self@.licenses =~= old(self)@.licenses + seq![license@]);
        self
    }

    /// Appends the licenses, in order, to the list of licenses.
    pub fn add_licenses(&mut self, licenses: &[&str]) -> (maker: &mut Self)
        ensures
            maker@ == old(self)@.with_licenses(str_views(licenses@)),
            *final(self) == *final(maker),
    {
        let mut copies = copy_all(licenses);
        self.licenses.append(&mut copies);
        assert(self@.licenses =~= old(self)@.licenses + str_views(licenses@));
        self
    }

    /// Takes `category` as the category where the maker has none yet, and
    /// changes nothing where it has one.
    pub fn add_category(&mut self, category: &str) -> (maker: &mut Self)
        ensures
            maker@ == old(self)@.with_category(category@),
            *final(self) == *final(maker),
    {
        if self.category.is_none() {
            self.category = Some(category.to_owned());
        }
        self
    }

    /// Offers the categories in order: the first is taken where the maker has
    /// none yet, the others change nothing.
    pub fn add_categories(&mut self, categories: &[&str]) -> (maker: &mut Self)
        ensures
            maker@ == old(self)@.with_categories(str_views(categories@)),
            *final(self) == *final(maker),
    {
        let ghost before = self@;
        let ghost names = str_views(categories@);
        let mut at: usize = 0;
        while at < categories.len()
            invariant
                at <= categories.len(),
                names == str_views(categories@),
                self@ == before.with_categories(names.take(at as int)),
            decreases categories.len() - at,
        {
            self.add_category(categories[at]);
            assert(names.take(at + 1)[0] == names[0]);
            assert(at > 0 ==> names.take(at as int)[0] == names[0]);
            at += 1;
        }
        assert(names.take(at as int) =~= names);
        self
    }

    /// Appends the link that `url` stands for: `url` is cut at its first
    /// `#` into the address and the fragment.
    pub fn add_link(&mut self, link_type: LinkType, url: &str) -> (maker: &mut Self)
        ensures
            maker@ == old(self)@.with_links(seq![LinkView::split(link_type, url@)]),
            *final(self) == *final(maker),
    {
        self.links.push(Link::parse(link_type, url));
        assert(self@.links =~= old(self)@.links + seq![LinkView::split(link_type, url@)]);
        self
    }

    /// Appends the links that `urls` stand for, in order, all of one type.
    pub fn add_links(&mut self, link_type: LinkType, urls: &[&str]) -> (maker: &mut Self)
        ensures
            maker@ == old(self)@.with_links(LinkView::split_all(link_type, str_views(urls@))),
            *final(self) == *final(maker),
    {
        let ghost before = self@;
        let ghost links = LinkView::split_all(link_type, str_views(urls@));
        let mut at: usize = 0;
        assert(self@.links =~= before.links + links.take(0));
        while at < urls.len()
            invariant
                at <= urls.len(),
                links == LinkView::split_all(link_type, str_views(urls@)),
                self@ == before.with_links(links.take(at as int)),
            decreases urls.len() - at,
        {
            let ghost earlier = self@;
            self.add_link(link_type, urls[at]);
            assert(self@.links =~= before.links + links.take(at + 1)) by {
                assert(self@.links == earlier.links + seq![LinkView::split(link_type, urls[at as int]@)]);
                assert(links.take(at + 1) =~= links.take(at as int) + seq![links[at as int]]);
            }
            at += 1;
        }
        assert(links.take(at as int) =~= links);
        self
    }

    /// Gives the extra field `name` the single value `value`, in place of
    /// whatever it held.
    pub fn set_extra_field_one(&mut self, name: &str, value: &str)
        ensures
            final(self)@ == old(self)@.with_extra_field_one(name@, value@),
    {
        let mut fields = ExtraFields::new();
        swap(&mut self.extrafields, &mut fields);
        self.extrafields = fields.with(name.to_owned(), ExtraField::OneValue(value.to_owned()));
        assert(self@.extrafields =~= old(self)@.extrafields.insert(
            name@,
            ExtraFieldView::OneValue(value@),
        ));
    }

    /// Gives the extra field `name` the list `values`, in place of whatever
    /// it held. An empty list changes nothing.
    pub fn set_extra_field_many(&mut self, name: &str, values: &[&str])
        ensures
            final(self)@ == old(self)@.with_extra_field_many(name@, str_views(values@)),
    {
        let copies = copy_all(values);
        if copies.len() > 0 {
            let mut fields = ExtraFields::new();
            swap(&mut self.extrafields, &mut fields);
            self.extrafields = fields.with(name.to_owned(), ExtraField::ManyValues(copies));
            assert(self@.extrafields =~= old(self)@.extrafields.insert(
                name@,
                ExtraFieldView::ManyValues(str_views(values@)),
            ));
        }
    }

    /// Checks the gathered fields, in a fixed order, and makes the record
    /// from them. The first check that fails gives the error; where none
    /// fails, every field is moved into the record as it is.
    pub fn finalize(self) -> (outcome: Result<ParsedPackage, PackageParsingError>)
        ensures
            match outcome {
                Ok(package) => self@.finalized() == Ok::<_, PackageParsingError>(package@),
                Err(error) => self@.finalized() == Err::<ParsedPackageView, _>(error),
            },
            outcome matches Ok(package) ==> package@.valid(),
    {
        let ghost before = self@;
        let projectname_seed = match self.projectname_seed {
            Some(seed) => seed,
            None => {
                return Err(PackageParsingError::MissingProjectNameSeed);
            },
        };
        if projectname_seed.as_str().is_empty() {
            return Err(PackageParsingError::EmptyProjectNameSeed);
        }
        let visiblename = match self.visiblename {
            Some(name) => name,
            None => {
                return Err(PackageParsingError::MissingVisibleName);
            },
        };
        if visiblename.as_str().is_empty() {
            return Err(PackageParsingError::EmptyVisibleName);
        }
        let versions = match self.versions {
            Some(pair) => pair,
            None => {
                return Err(PackageParsingError::MissingVersion);
            },
        };
        if versions.normalized.as_str().is_empty() {
            return Err(PackageParsingError::EmptyVersion);
        }
        if self.srcname.is_none() && self.binname.is_none() && self.binnames.len() == 0 {
            return Err(PackageParsingError::MissingPackageNames);
        }
        if is_empty_name(&self.srcname) {
            return Err(PackageParsingError::EmptySrcName);
        }
        if is_empty_name(&self.binname) {
            return Err(PackageParsingError::EmptyBinName);
        }
        if any_empty(&self.binnames) {
            return Err(PackageParsingError::EmptyBinNamesEntry);
        }
        let package = ParsedPackage {
            subrepo: self.subrepo,
            srcname: self.srcname,
            binname: self.binname,
            binnames: self.binnames,
            trackname: self.trackname,
            visiblename,
            projectname_seed,
            rawversion: versions.raw,
            arch: self.arch,
            maintainers: self.maintainers,
            category: self.category,
            comment: self.comment,
            licenses: self.licenses,
            extrafields: self.extrafields,
            cpe_vendor: self.cpe_vendor,
            cpe_product: self.cpe_product,
            cpe_edition: self.cpe_edition,
            cpe_lang: self.cpe_lang,
            cpe_sw_edition: self.cpe_sw_edition,
            cpe_target_sw: self.cpe_target_sw,
            cpe_target_hw: self.cpe_target_hw,
            cpe_other: self.cpe_other,
            links: self.links,
            version: versions.normalized,
            flags: self.flags,
            flavors: self.flavors,
        };
        proof {
            assert(before.rejection() is None);
            assert(package@ == before.package());
            before.lemma_finalized_is_valid();
        }
        Ok(package)
    }
}

} // verus!
