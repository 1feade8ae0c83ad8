//! The database handle the searches, additions and updates start from.
use crate::db::add::levels::AddLevels;
use crate::db::add::packages::AddPackages;
use crate::db::add::platforms::AddPlatforms;
use crate::db::add::roles::AddRoles;
use crate::db::add::versionpins::AddVersionPins;
use crate::db::add::withs::AddWiths;
use crate::db::update::versionpins::UpdateVersionPins;
use crate::db::find::versionpin::FindVersionPin;
use crate::db::find_all::changes::FindAllChanges;
use crate::db::find_all::distributions::FindAllDistributions;
use crate::db::find_all::packages::FindAllPackages;
use crate::db::find_all::pkgcoords::FindAllPkgCoords;
use crate::db::find_all::roles::FindAllRoles;
use crate::db::find_all::sites::FindAllSites;
use crate::db::find_all::versionpin_withs::FindAllWiths;
use crate::db::search_attribute::{LtreeSearchMode, SearchMode};
use crate::types::IdType;
pub use tokio_postgres::Client;
use vstd::prelude::*;

verus! {

/// Why a commit failed.
#[allow(inconsistent_fields)]
#[derive(Debug)]
pub enum PackratDbError {
    /// The database refused a statement.
    TokioPostgresError { msg: &'static str, source: tokio_postgres::Error },
    /// No change was given.
    NoUpdatesError,
}

/// A connection to the packrat database.
pub struct PackratDb {
    pub client: Client,
}

impl PackratDb {
    /// The handle of a connection.
    pub fn new(client: Client) -> (r: Self)
        ensures
            r.client == client,
    {
        PackratDb { client }
    }
}

/// The searches a database handle starts.
pub trait PBFind {
    /// A search for the version pin of `package`.
    fn find_versionpin<'b>(&'b mut self, package: &'b str) -> FindVersionPin<'b>;

    /// A search for every role.
    fn find_all_roles<'b>(&'b mut self) -> FindAllRoles<'b>;

    /// A search for the changes of a transaction.
    fn find_all_changes<'b>(&'b mut self) -> FindAllChanges<'b>;

    /// A search for every site.
    fn find_all_sites<'b>(&'b mut self) -> FindAllSites<'b>;

    /// A search for every package.
    fn find_all_packages<'b>(&'b mut self) -> FindAllPackages<'b>;

    /// A search for the packages that go with a version pin.
    fn find_all_versionpin_withs<'b>(&'b mut self, versionpin_id: IdType) -> FindAllWiths;

    /// A search for every distribution.
    fn find_all_distributions<'b>(&'b mut self) -> FindAllDistributions<'b>;

    /// A search for package coordinates.
    fn find_pkgcoords<'b>(&'b mut self) -> FindAllPkgCoords<'b>;
}

impl PBFind for PackratDb {
    fn find_versionpin<'b>(&'b mut self, package: &'b str) -> (r: FindVersionPin<'b>)
        ensures
            r.package == package,
            r.level is None && r.role is None && r.platform is None && r.site is None,
    {
        FindVersionPin::new(package)
    }

    fn find_all_roles<'b>(&'b mut self) -> (r: FindAllRoles<'b>)
        ensures
            r.role is None && r.category is None && r.order_by is None && r.order_direction is None
                && r.limit is None,
    {
        FindAllRoles::new()
    }

    fn find_all_changes<'b>(&'b mut self) -> (r: FindAllChanges<'b>)
        ensures
            r.transaction_id is None,
    {
        FindAllChanges::new(&mut self.client)
    }

    fn find_all_sites<'b>(&'b mut self) -> (r: FindAllSites<'b>)
        ensures
            r.name is None,
    {
        FindAllSites::new()
    }

    fn find_all_packages<'b>(&'b mut self) -> (r: FindAllPackages<'b>)
        ensures
            r.name is None,
    {
        FindAllPackages::new()
    }

    fn find_all_versionpin_withs<'b>(&'b mut self, versionpin_id: IdType) -> (r: FindAllWiths)
        ensures
            r.vpin_id == versionpin_id,
    {
        FindAllWiths::new(versionpin_id)
    }

    fn find_all_distributions<'b>(&'b mut self) -> (r: FindAllDistributions<'b>)
        ensures
            r.package is None && r.version is None && r.order_direction is None,
    {
        FindAllDistributions::new(&mut self.client)
    }

    fn find_pkgcoords<'b>(&'b mut self) -> (r: FindAllPkgCoords<'b>)
        ensures
            r.client is Some,
            r.package is None && r.level is None && r.role is None && r.platform is None
                && r.site is None && r.order_by is None,
            r.search_mode == SearchMode::Ltree(LtreeSearchMode::Ancestor),
    {
        FindAllPkgCoords::new(Some(&mut self.client))
    }
}

/// The additions a database handle starts.
pub trait PBAdd {
    /// Packages to add.
    fn add_packages() -> AddPackages;

    /// Levels to add.
    fn add_levels() -> AddLevels;

    /// Roles to add.
    fn add_roles() -> AddRoles;

    /// Platforms to add.
    fn add_platforms() -> AddPlatforms;

    /// Packages that go with a version pin, to add.
    fn add_withs() -> AddWiths;

    /// Version pins of the distribution `package-version` to add.
    fn add_versionpins(package: String, version: String) -> AddVersionPins;
}

impl PBAdd for PackratDb {
    fn add_packages() -> (r: AddPackages)
        ensures
            r@ == Seq::<Seq<char>>::empty(),
            r.count() == 0,
    {
        AddPackages::new()
    }

    fn add_levels() -> (r: AddLevels)
        ensures
            r@ == Seq::<Seq<char>>::empty(),
            r.count() == 0,
    {
        AddLevels::new()
    }

    fn add_roles() -> (r: AddRoles)
        ensures
            r@ == Seq::<Seq<char>>::empty(),
            r.count() == 0,
    {
        AddRoles::new()
    }

    fn add_platforms() -> (r: AddPlatforms)
        ensures
            r@ == Seq::<Seq<char>>::empty(),
            r.count() == 0,
    {
        AddPlatforms::new()
    }

    fn add_withs() -> (r: AddWiths)
        ensures
            r.count() == 0,
    {
        AddWiths::new()
    }

    fn add_versionpins(package: String, version: String) -> (r: AddVersionPins)
        ensures
            r.package_v() == package@,
            r.version_v() == version@,
            r.levels_v().len() == 0,
            r.roles_v().len() == 0,
            r.platforms_v().len() == 0,
            r.sites_v().len() == 0,
            r.count() == 0,
    {
        AddVersionPins::new(package, version)
    }
}

/// The updates a database handle starts.
pub trait PBUpdate {
    /// Version pin changes to make.
    fn update_versionpins() -> UpdateVersionPins;
}

impl PBUpdate for PackratDb {
    fn update_versionpins() -> (r: UpdateVersionPins)
        ensures
            r.pending().len() == 0,
            r.count() == 0,
    {
        UpdateVersionPins::new()
    }
}

} // verus!
