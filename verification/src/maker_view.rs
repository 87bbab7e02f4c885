//! What a package maker holds, as plain mathematical values, and what each
//! of its operations does to that.

use vstd::prelude::*;
use crate::error::PackageParsingError;
use crate::name_type::NameRole;
use crate::package::{ExtraFieldView, LinkView, PackageFlags, ParsedPackageView};

verus! {

/// The fields gathered for one package so far.
pub struct PackageMakerView {
    pub subrepo: Option<Seq<char>>,
    pub srcname: Option<Seq<char>>,
    pub binname: Option<Seq<char>>,
    pub binnames: Seq<Seq<char>>,
    pub trackname: Option<Seq<char>>,
    pub visiblename: Option<Seq<char>>,
    pub projectname_seed: Option<Seq<char>>,
    pub rawversion: Option<Seq<char>>,
    pub arch: Option<Seq<char>>,
    pub maintainers: Seq<Seq<char>>,
    pub category: Option<Seq<char>>,
    pub comment: Option<Seq<char>>,
    pub licenses: Seq<Seq<char>>,
    pub extrafields: Map<Seq<char>, ExtraFieldView>,
    pub cpe_vendor: Option<Seq<char>>,
    pub cpe_product: Option<Seq<char>>,
    pub cpe_edition: Option<Seq<char>>,
    pub cpe_lang: Option<Seq<char>>,
    pub cpe_sw_edition: Option<Seq<char>>,
    pub cpe_target_sw: Option<Seq<char>>,
    pub cpe_target_hw: Option<Seq<char>>,
    pub cpe_other: Option<Seq<char>>,
    pub links: Seq<LinkView>,
    pub version: Option<Seq<char>>,
    pub flags: PackageFlags,
    pub flavors: Seq<Seq<char>>,
}

impl PackageMakerView {
    /// A maker to which nothing has been given yet.
    pub open spec fn empty() -> PackageMakerView {
        PackageMakerView {
            subrepo: None,
            srcname: None,
            binname: None,
            binnames: Seq::empty(),
            trackname: None,
            visiblename: None,
            projectname_seed: None,
            rawversion: None,
            arch: None,
            maintainers: Seq::empty(),
            category: None,
            comment: None,
            licenses: Seq::empty(),
            extrafields: Map::empty(),
            cpe_vendor: None,
            cpe_product: None,
            cpe_edition: None,
            cpe_lang: None,
            cpe_sw_edition: None,
            cpe_target_sw: None,
            cpe_target_hw: None,
            cpe_other: None,
            links: Seq::empty(),
            version: None,
            flags: PackageFlags { bits: 0 },
            flavors: Seq::empty(),
        }
    }

    /// The raw and the normalized version are there together or not at all.
    pub open spec fn versions_paired(self) -> bool {
        self.version is Some <==> self.rawversion is Some
    }

    /// The name held for a role, if one was assigned.
    pub open spec fn name_slot(self, role: NameRole) -> Option<Seq<char>> {
        match role {
            NameRole::SrcName => self.srcname,
            NameRole::BinName => self.binname,
            NameRole::TrackName => self.trackname,
            NameRole::DisplayName => self.visiblename,
            NameRole::ProjectNameSeed => self.projectname_seed,
        }
    }

    /// No role of `roles` has a name yet.
    pub open spec fn names_unset(self, roles: Set<NameRole>) -> bool {
        forall|role: NameRole| roles.contains(role) ==> self.name_slot(role) is None
    }

    /// The maker after `name` was assigned to every role of `roles`.
    pub open spec fn with_names(self, name: Seq<char>, roles: Set<NameRole>) -> PackageMakerView {
        PackageMakerView {
            srcname: if roles.contains(NameRole::SrcName) {
                Some(name)
            } else {
                self.srcname
            },
            binname: if roles.contains(NameRole::BinName) {
                Some(name)
            } else {
                self.binname
            },
            trackname: if roles.contains(NameRole::TrackName) {
                Some(name)
            } else {
                self.trackname
            },
            visiblename: if roles.contains(NameRole::DisplayName) {
                Some(name)
            } else {
                self.visiblename
            },
            projectname_seed: if roles.contains(NameRole::ProjectNameSeed) {
                Some(name)
            } else {
                self.projectname_seed
            },
            ..self
        }
    }

    /// The maker after `names` were appended to the list of binary names.
    pub open spec fn with_binnames(self, names: Seq<Seq<char>>) -> PackageMakerView {
        PackageMakerView { binnames: self.binnames + names, ..self }
    }

    /// The maker after its version pair was replaced.
    pub open spec fn with_version(self, raw: Seq<char>, normalized: Seq<char>) -> PackageMakerView {
        PackageMakerView { rawversion: Some(raw), version: Some(normalized), ..self }
    }

    /// The maker after its summary was replaced.
    pub open spec fn with_summary(self, summary: Seq<char>) -> PackageMakerView {
        PackageMakerView { comment: Some(summary), ..self }
    }

    /// The maker after `names` were appended to the list of maintainers.
    pub open spec fn with_maintainers(self, names: Seq<Seq<char>>) -> PackageMakerView {
        PackageMakerView { maintainers: self.maintainers + names, ..self }
    }

    /// The maker after `licenses` were appended to the list of licenses.
    pub open spec fn with_licenses(self, licenses: Seq<Seq<char>>) -> PackageMakerView {
        PackageMakerView { licenses: self.licenses + licenses, ..self }
    }

    /// The maker after a category was offered: it is kept only where the
    /// maker has none yet.
    pub open spec fn with_category(self, category: Seq<char>) -> PackageMakerView {
        if self.category is None {
            PackageMakerView { category: Some(category), ..self }
        } else {
            self
        }
    }

    /// The maker after categories were offered in order: the first of them is
    /// kept where the maker has none yet.
    pub open spec fn with_categories(self, categories: Seq<Seq<char>>) -> PackageMakerView {
        if categories.len() > 0 {
            self.with_category(categories[0])
        } else {
            self
        }
    }

    /// The maker after `links` were appended to its links.
    pub open spec fn with_links(self, links: Seq<LinkView>) -> PackageMakerView {
        PackageMakerView { links: self.links + links, ..self }
    }

    /// The maker after the extra field `name` was given a single value, in
    /// place of what it held.
    pub open spec fn with_extra_field_one(self, name: Seq<char>, value: Seq<char>) -> PackageMakerView {
        PackageMakerView {
            extrafields: self.extrafields.insert(name, ExtraFieldView::OneValue(value)),
            ..self
        }
    }

    /// The maker after the extra field `name` was given a list of values, in
    /// place of what it held. An empty list changes nothing.
    pub open spec fn with_extra_field_many(
        self,
        name: Seq<char>,
        values: Seq<Seq<char>>,
    ) -> PackageMakerView {
        if values.len() > 0 {
            PackageMakerView {
                extrafields: self.extrafields.insert(name, ExtraFieldView::ManyValues(values)),
                ..self
            }
        } else {
            self
        }
    }

    /// Some name in the list of binary names is empty.
    pub open spec fn has_empty_binnames_entry(self) -> bool {
        exists|i: int| 0 <= i < self.binnames.len() && #[trigger] self.binnames[i].len() == 0
    }

    /// The first reason, in the order of the checks, for which the gathered
    /// fields make no valid record; `None` where they make one.
    pub open spec fn rejection(self) -> Option<PackageParsingError> {
        if self.projectname_seed is None {
            Some(PackageParsingError::MissingProjectNameSeed)
        } else if self.projectname_seed->0.len() == 0 {
            Some(PackageParsingError::EmptyProjectNameSeed)
        } else if self.visiblename is None {
            Some(PackageParsingError::MissingVisibleName)
        } else if self.visiblename->0.len() == 0 {
            Some(PackageParsingError::EmptyVisibleName)
        } else if self.version is None {
            Some(PackageParsingError::MissingVersion)
        } else if self.version->0.len() == 0 {
            Some(PackageParsingError::EmptyVersion)
        } else if self.srcname is None && self.binname is None && self.binnames.len() == 0 {
            Some(PackageParsingError::MissingPackageNames)
        } else if self.srcname == Some(Seq::<char>::empty()) {
            Some(PackageParsingError::EmptySrcName)
        } else if self.binname == Some(Seq::<char>::empty()) {
            Some(PackageParsingError::EmptyBinName)
        } else if self.has_empty_binnames_entry() {
            Some(PackageParsingError::EmptyBinNamesEntry)
        } else {
            None
        }
    }

    /// The record that the gathered fields make, all of them carried over as
    /// they are.
    pub open spec fn package(self) -> ParsedPackageView
        recommends
            self.rejection() is None,
            self.versions_paired(),
    {
        ParsedPackageView {
            subrepo: self.subrepo,
            srcname: self.srcname,
            binname: self.binname,
            binnames: self.binnames,
            trackname: self.trackname,
            visiblename: self.visiblename->0,
            projectname_seed: self.projectname_seed->0,
            rawversion: self.rawversion->0,
            arch: self.arch,
            maintainers: self.maintainers,
            category: self.category,
            comment: self.comment,
            licenses: self.licenses,
            extrafields: self.extrafields,
            cpe_vendor: self.cpe_vendor,
            cpe_product: self.cpe_product,
            cpe_edition: self.cpe_edition,
            cpe_lang: self.cpe_lang,
            cpe_sw_edition: self.cpe_sw_edition,
            cpe_target_sw: self.cpe_target_sw,
            cpe_target_hw: self.cpe_target_hw,
            cpe_other: self.cpe_other,
            links: self.links,
            version: self.version->0,
            flags: self.flags,
            flavors: self.flavors,
        }
    }

    /// What finalizing the maker gives: the record, or the first reason
    /// against it.
    pub open spec fn finalized(self) -> Result<ParsedPackageView, PackageParsingError> {
        match self.rejection() {
            Some(error) => Err(error),
            None => Ok(self.package()),
        }
    }

    /// A record that finalizing gives satisfies what every record must.
    pub proof fn lemma_finalized_is_valid(self)
        requires
            self.rejection() is None,
        ensures
            self.package().valid(),
    {
        let package = self.package();
        if self.srcname is Some && self.srcname->0.len() == 0 {
            assert(self.srcname->0 =~= Seq::<char>::empty());
        }
        if self.binname is Some && self.binname->0.len() == 0 {
            assert(self.binname->0 =~= Seq::<char>::empty());
        }
        assert forall|i: int| 0 <= i < package.binnames.len() implies package.binnames[i].len()
            > 0 by {
            if self.binnames[i].len() == 0 {
                assert(self.has_empty_binnames_entry());
            }
        }
    }

    /// A role that was given a name holds that name, and no set of roles
    /// that holds this role can be assigned afterwards, whatever else is in
    /// either set.
    pub proof fn lemma_role_is_assigned_once(
        self,
        name: Seq<char>,
        roles: Set<NameRole>,
        role: NameRole,
        again: Set<NameRole>,
    )
        requires
            roles.contains(role),
            again.contains(role),
        ensures
            self.with_names(name, roles).name_slot(role) == Some(name),
            !self.with_names(name, roles).names_unset(again),
    {
        assert(self.with_names(name, roles).name_slot(role) is Some);
    }

    /// Where a role has a name, no set of roles that holds it can be
    /// assigned.
    pub proof fn lemma_taken_role_blocks(self, role: NameRole, again: Set<NameRole>)
        requires
            self.name_slot(role) is Some,
            again.contains(role),
        ensures
            !self.names_unset(again),
    {
    }

    /// A name, once assigned, stays: no operation of the maker takes it away
    /// or changes it, and an assignment to other roles leaves it alone.
    pub proof fn lemma_names_are_kept(
        self,
        role: NameRole,
        text: Seq<char>,
        other: Seq<char>,
        texts: Seq<Seq<char>>,
        links: Seq<LinkView>,
        roles: Set<NameRole>,
    )
        ensures
            self.with_binnames(texts).name_slot(role) == self.name_slot(role),
            self.with_version(text, other).name_slot(role) == self.name_slot(role),
            self.with_summary(text).name_slot(role) == self.name_slot(role),
            self.with_maintainers(texts).name_slot(role) == self.name_slot(role),
            self.with_licenses(texts).name_slot(role) == self.name_slot(role),
            self.with_category(text).name_slot(role) == self.name_slot(role),
            self.with_categories(texts).name_slot(role) == self.name_slot(role),
            self.with_links(links).name_slot(role) == self.name_slot(role),
            self.with_extra_field_one(text, other).name_slot(role) == self.name_slot(role),
            self.with_extra_field_many(text, texts).name_slot(role) == self.name_slot(role),
            !roles.contains(role) ==> self.with_names(text, roles).name_slot(role)
                == self.name_slot(role),
    {
    }

    /// Every operation keeps the raw and the normalized version together.
    pub proof fn lemma_versions_stay_paired(
        self,
        text: Seq<char>,
        other: Seq<char>,
        texts: Seq<Seq<char>>,
        links: Seq<LinkView>,
        roles: Set<NameRole>,
    )
        requires
            self.versions_paired(),
        ensures
            Self::empty().versions_paired(),
            self.with_names(text, roles).versions_paired(),
            self.with_binnames(texts).versions_paired(),
            self.with_version(text, other).versions_paired(),
            self.with_summary(text).versions_paired(),
            self.with_maintainers(texts).versions_paired(),
            self.with_licenses(texts).versions_paired(),
            self.with_category(text).versions_paired(),
            self.with_categories(texts).versions_paired(),
            self.with_links(links).versions_paired(),
            self.with_extra_field_one(text, other).versions_paired(),
            self.with_extra_field_many(text, texts).versions_paired(),
    {
    }

    /// A version given later replaces the one given before, both parts of it.
    pub proof fn lemma_last_version_wins(
        self,
        raw: Seq<char>,
        normalized: Seq<char>,
        later_raw: Seq<char>,
        later_normalized: Seq<char>,
    )
        ensures
            self.with_version(raw, normalized).with_version(later_raw, later_normalized)
                == self.with_version(later_raw, later_normalized),
    {
    }

    /// A single value given to an extra field a second time replaces the
    /// first: the field then holds the second value and nothing else.
    pub proof fn lemma_extra_field_one_replaces(
        self,
        name: Seq<char>,
        first: Seq<char>,
        second: Seq<char>,
    )
        ensures
            self.with_extra_field_one(name, first).with_extra_field_one(name, second)
                == self.with_extra_field_one(name, second),
            self.with_extra_field_one(name, first).with_extra_field_one(
                name,
                second,
            ).extrafields[name] == ExtraFieldView::OneValue(second),
    {
        assert(self.extrafields.insert(name, ExtraFieldView::OneValue(first)).insert(
            name,
            ExtraFieldView::OneValue(second),
        ) =~= self.extrafields.insert(name, ExtraFieldView::OneValue(second)));
    }

    /// A list given to an extra field replaces what the field held, and is
    /// kept as given, repeated values included.
    pub proof fn lemma_extra_field_many_replaces(
        self,
        name: Seq<char>,
        first: Seq<Seq<char>>,
        second: Seq<Seq<char>>,
    )
        requires
            second.len() > 0,
        ensures
            self.with_extra_field_many(name, first).with_extra_field_many(name, second)
                == self.with_extra_field_many(name, second),
            self.with_extra_field_many(name, first).with_extra_field_many(
                name,
                second,
            ).extrafields[name] == ExtraFieldView::ManyValues(second),
    {
        assert(self.with_extra_field_many(name, first).extrafields.insert(
            name,
            ExtraFieldView::ManyValues(second),
        ) =~= self.extrafields.insert(name, ExtraFieldView::ManyValues(second)));
    }

    /// An empty list given to an extra field leaves the maker as it was.
    pub proof fn lemma_extra_field_many_empty(self, name: Seq<char>)
        ensures
            self.with_extra_field_many(name, Seq::empty()) == self,
    {
    }

    /// A value given to one extra field leaves every other extra field as it
    /// was.
    pub proof fn lemma_extra_fields_are_apart(
        self,
        name: Seq<char>,
        value: Seq<char>,
        values: Seq<Seq<char>>,
        other: Seq<char>,
    )
        requires
            other != name,
        ensures
            self.with_extra_field_one(name, value).extrafields.contains_key(other)
                == self.extrafields.contains_key(other),
            self.with_extra_field_many(name, values).extrafields.contains_key(other)
                == self.extrafields.contains_key(other),
            self.extrafields.contains_key(other) ==> self.with_extra_field_one(
                name,
                value,
            ).extrafields[other] == self.extrafields[other] && self.with_extra_field_many(
                name,
                values,
            ).extrafields[other] == self.extrafields[other],
    {
    }

    /// The category offered first is the one that stays.
    pub proof fn lemma_first_category_wins(self, first: Seq<char>, second: Seq<char>)
        ensures
            self.with_category(first).with_category(second) == self.with_category(first),
            self.category is None ==> self.with_category(first).with_category(second).category
                == Some(first),
            self.category is Some ==> self.with_category(first).with_category(second) == self,
    {
    }

    /// To offer a list of categories is to offer them one after the other.
    pub proof fn lemma_categories_one_by_one(self, categories: Seq<Seq<char>>)
        requires
            categories.len() > 0,
        ensures
            self.with_categories(categories) == self.with_categories(
                categories.drop_last(),
            ).with_category(categories.last()),
    {
        if categories.len() > 1 {
            assert(categories.drop_last()[0] == categories[0]);
        }
    }

    /// Where the project name seed, the display name and the version are
    /// there and not empty, but neither a source name nor any binary name,
    /// finalizing fails for want of package names and for nothing else.
    pub proof fn lemma_no_package_names(self)
        requires
            self.projectname_seed is Some && self.projectname_seed->0.len() > 0,
            self.visiblename is Some && self.visiblename->0.len() > 0,
            self.version is Some && self.version->0.len() > 0,
            self.srcname is None,
            self.binname is None,
            self.binnames.len() == 0,
        ensures
            self.finalized() == Err::<ParsedPackageView, _>(
                PackageParsingError::MissingPackageNames,
            ),
    {
    }

    /// A maker that was given nothing but one name that is not empty, for
    /// all five roles, and a version that is not empty, makes a record with
    /// that name in every role and that version in both forms.
    pub proof fn lemma_names_and_version_suffice(name: Seq<char>, version: Seq<char>)
        requires
            name.len() > 0,
            version.len() > 0,
        ensures
            ({
                let maker = Self::empty().with_names(name, Set::full()).with_version(
                    version,
                    version,
                );
                &&& maker.finalized() is Ok
                &&& maker.finalized()->Ok_0.srcname == Some(name)
                &&& maker.finalized()->Ok_0.binname == Some(name)
                &&& maker.finalized()->Ok_0.trackname == Some(name)
                &&& maker.finalized()->Ok_0.visiblename == name
                &&& maker.finalized()->Ok_0.projectname_seed == name
                &&& maker.finalized()->Ok_0.version == version
                &&& maker.finalized()->Ok_0.rawversion == version
            }),
    {
        let maker = Self::empty().with_names(name, Set::full()).with_version(version, version);
        assert(!maker.has_empty_binnames_entry());
    }
}

} // verus!
