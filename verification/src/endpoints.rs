//! The pages of the site: where each is found, and which part of the site
//! it belongs to.

use vstd::prelude::*;

verus! {

/// A part of the site, as its navigation shows it.
#[derive(Clone, Copy, Debug, PartialEq, Eq, Structural)]
pub enum Section {
    Admin,
    Docs,
    Experimental,
    Maintainers,
    News,
    Projects,
    Repositories,
    Security,
    Tools,
}

/// A page, or a family of pages that differ in the values of named places.
#[derive(Clone, Copy, Debug, PartialEq, Eq, Structural)]
pub enum Endpoint {
    StaticFile,
    Index,
    News,
    Tools,
    Docs,
    DocsAbout,
    DocsBots,
    Projects,
    ProjectVersions,
    ProjectPackages,
    ProjectInformation,
    ProjectHistory,
    ProjectBadges,
    ProjectReport,
    Maintainers,
    Maintainer,
    Repository,
    RepositoriesStatistics,
    BadgeVersionForRepo,
    BadgeTinyRepos,
    LegacyBadgeVersionOnlyForRepo,
    LegacyProjectRoot,
    LegacyMetapackage,
    LegacyMetapackageVersions,
    LegacyMetapackagePackages,
}

impl Endpoint {
    /// The pattern of the addresses of the page, with `{name}` for each
    /// named place.
    pub open spec fn path_spec(self) -> Seq<char> {
        match self {
            Endpoint::StaticFile => "/static/{file_name}"@,
            Endpoint::Index => "/"@,
            Endpoint::News => "/news"@,
            Endpoint::Tools => "/tools"@,
            Endpoint::Docs => "/docs"@,
            Endpoint::DocsAbout => "/docs/about"@,
            Endpoint::DocsBots => "/docs/bots"@,
            Endpoint::Projects => "/projects/"@,
            Endpoint::ProjectVersions => "/project/{project_name}/versions"@,
            Endpoint::ProjectPackages => "/project/{project_name}/packages"@,
            Endpoint::ProjectInformation => "/project/{project_name}/information"@,
            Endpoint::ProjectHistory => "/project/{project_name}/history"@,
            Endpoint::ProjectBadges => "/project/{project_name}/badges"@,
            Endpoint::ProjectReport => "/project/{project_name}/report"@,
            Endpoint::Maintainers => "/maintainers/"@,
            Endpoint::Maintainer => "/maintainer/{maintainer_name}"@,
            Endpoint::Repository => "/repository/{repository_name}"@,
            Endpoint::RepositoriesStatistics => "/repositories/statistics"@,
            Endpoint::BadgeVersionForRepo =>
                "/badge/version-for-repo/{repository_name}/{project_name}.svg"@,
            Endpoint::BadgeTinyRepos => "/badge/tiny-repos/{project_name}.svg"@,
            Endpoint::LegacyBadgeVersionOnlyForRepo =>
                "/badge/version-only-for-repo/{repository_name}/{project_name}.svg"@,
            Endpoint::LegacyProjectRoot => "/project/{project_name}"@,
            Endpoint::LegacyMetapackage => "/metapackage/{project_name}"@,
            Endpoint::LegacyMetapackageVersions => "/metapackage/{project_name}/versions"@,
            Endpoint::LegacyMetapackagePackages => "/metapackage/{project_name}/packages"@,
        }
    }

    /// The part of the site that the page belongs to, if any.
    pub open spec fn section(self) -> Option<Section> {
        match self {
            Endpoint::News => Some(Section::News),
            Endpoint::Tools => Some(Section::Tools),
            Endpoint::Docs | Endpoint::DocsAbout | Endpoint::DocsBots => Some(Section::Docs),
            Endpoint::Projects
            | Endpoint::ProjectVersions
            | Endpoint::ProjectPackages
            | Endpoint::ProjectInformation
            | Endpoint::ProjectHistory
            | Endpoint::ProjectBadges
            | Endpoint::ProjectReport => Some(Section::Projects),
            Endpoint::Maintainers | Endpoint::Maintainer => Some(Section::Maintainers),
            Endpoint::Repository | Endpoint::RepositoriesStatistics => Some(
                Section::Repositories,
            ),
            _ => None,
        }
    }

    /// The pattern of the addresses of the page.
    pub fn path(&self) -> (pattern: &'static str)
        ensures
            pattern@ == self.path_spec(),
    {
        match self {
            Endpoint::StaticFile => "/static/{file_name}",
            Endpoint::Index => "/",
            Endpoint::News => "/news",
            Endpoint::Tools => "/tools",
            Endpoint::Docs => "/docs",
            Endpoint::DocsAbout => "/docs/about",
            Endpoint::DocsBots => "/docs/bots",
            Endpoint::Projects => "/projects/",
            Endpoint::ProjectVersions => "/project/{project_name}/versions",
            Endpoint::ProjectPackages => "/project/{project_name}/packages",
            Endpoint::ProjectInformation => "/project/{project_name}/information",
            Endpoint::ProjectHistory => "/project/{project_name}/history",
            Endpoint::ProjectBadges => "/project/{project_name}/badges",
            Endpoint::ProjectReport => "/project/{project_name}/report",
            Endpoint::Maintainers => "/maintainers/",
            Endpoint::Maintainer => "/maintainer/{maintainer_name}",
            Endpoint::Repository => "/repository/{repository_name}",
            Endpoint::RepositoriesStatistics => "/repositories/statistics",
            Endpoint::BadgeVersionForRepo =>
                "/badge/version-for-repo/{repository_name}/{project_name}.svg",
            Endpoint::BadgeTinyRepos => "/badge/tiny-repos/{project_name}.svg",
            Endpoint::LegacyBadgeVersionOnlyForRepo =>
                "/badge/version-only-for-repo/{repository_name}/{project_name}.svg",
            Endpoint::LegacyProjectRoot => "/project/{project_name}",
            Endpoint::LegacyMetapackage => "/metapackage/{project_name}",
            Endpoint::LegacyMetapackageVersions => "/metapackage/{project_name}/versions",
            Endpoint::LegacyMetapackagePackages => "/metapackage/{project_name}/packages",
        }
    }

    /// Whether the page belongs to `section`.
    pub fn is_section(&self, section: Section) -> (inside: bool)
        ensures
            inside == (self.section() == Some(section)),
    {
        let own = match self {
            Endpoint::News => Some(Section::News),
            Endpoint::Tools => Some(Section::Tools),
            Endpoint::Docs | Endpoint::DocsAbout | Endpoint::DocsBots => Some(Section::Docs),
            Endpoint::Projects
            | Endpoint::ProjectVersions
            | Endpoint::ProjectPackages
            | Endpoint::ProjectInformation
            | Endpoint::ProjectHistory
            | Endpoint::ProjectBadges
            | Endpoint::ProjectReport => Some(Section::Projects),
            Endpoint::Maintainers | Endpoint::Maintainer => Some(Section::Maintainers),
            Endpoint::Repository | Endpoint::RepositoriesStatistics => Some(
                Section::Repositories,
            ),
            _ => None,
        };
        match own {
            Some(found) => found == section,
            None => false,
        }
    }
}

} // verus!
