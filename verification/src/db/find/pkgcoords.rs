//! Find package coordinates: where packages may be pinned.
use crate::coords_error::CoordsError;
use crate::text::{decimal, push_decimal, str_eq};
use crate::types::IdType;
use vstd::prelude::*;

verus! {

/// Errors of a package coordinates search.
#[derive(Debug)]
pub enum FindPkgCoordsError {
    /// A distribution could not be made.
    DistributionNewError { msg: String, source: CoordsError },
    /// Coordinates could not be made.
    CoordsTryFromPartsError { coords: String, source: CoordsError },
}

/// A row of a package coordinates search.
#[derive(Debug, PartialEq, Eq)]
pub struct FindPkgCoordsRow {
    pub id: IdType,
    pub package: String,
    pub level: String,
    pub role: String,
    pub platform: String,
    pub site: String,
}

impl FindPkgCoordsRow {
    /// A row of the given values.
    pub fn new(
        id: IdType,
        package: String,
        level: String,
        role: String,
        platform: String,
        site: String,
    ) -> (r: FindPkgCoordsRow)
        ensures
            r == (FindPkgCoordsRow { id, package, level, role, platform, site }),
    {
        FindPkgCoordsRow { id, package, level, role, platform, site }
    }

    /// A row from the values a query returned.
    pub fn try_from_parts(
        id: IdType,
        package: &str,
        level: &str,
        role: &str,
        platform: &str,
        site: &str,
    ) -> (r: Result<FindPkgCoordsRow, FindPkgCoordsError>)
        ensures
            r matches Ok(row) && row.id == id && row.package@ == package@ && row.level@ == level@
                && row.role@ == role@ && row.platform@ == platform@ && row.site@ == site@,
    {
        Ok(
            Self::new(
                id,
                String::from_str(package),
                String::from_str(level),
                String::from_str(role),
                String::from_str(platform),
                String::from_str(site),
            ),
        )
    }

    /// A row from the values a query returned.
    pub fn from_parts(
        id: IdType,
        package: &str,
        level: &str,
        role: &str,
        platform: &str,
        site: &str,
    ) -> (r: FindPkgCoordsRow)
        ensures
            r.id == id && r.package@ == package@ && r.level@ == level@ && r.role@ == role@
                && r.platform@ == platform@ && r.site@ == site@,
    {
        Self::new(
            id,
            String::from_str(package),
            String::from_str(level),
            String::from_str(role),
            String::from_str(platform),
            String::from_str(site),
        )
    }

    /// The row as it is displayed: `package (level role platform site)`.
    pub fn to_string(&self) -> (r: String)
        ensures
            r@ == self.package@ + " ("@ + self.level@ + " "@ + self.role@ + " "@ + self.platform@
                + " "@ + self.site@ + ")"@,
    {
        let mut s = self.package.clone();
        s.append(" (");
        s.append(self.level.as_str());
        s.append(" ");
        s.append(self.role.as_str());
        s.append(" ");
        s.append(self.platform.as_str());
        s.append(" ");
        s.append(self.site.as_str());
        s.append(")");
        s
    }
}

/// A search for package coordinates.
pub struct FindPkgCoords<'a> {
    /// The database connection the search runs on.
    pub client: &'a mut postgres::Client,
    pub package: Option<&'a str>,
    pub level: Option<&'a str>,
    pub role: Option<&'a str>,
    pub platform: Option<&'a str>,
    pub site: Option<&'a str>,
}

/// The fields of a search other than its connection.
pub open spec fn same_find_pkgcoords_search(a: FindPkgCoords, b: FindPkgCoords) -> bool {
    &&& a.package == b.package
    &&& a.level == b.level
    &&& a.role == b.role
    &&& a.platform == b.platform
    &&& a.site == b.site
}

/// A coordinate value as a path under `root`: the root itself, or the
/// value after `root.`.
pub open spec fn under_root(x: Seq<char>, root: Seq<char>) -> Seq<char> {
    if x == root {
        x
    } else {
        root + "."@ + x
    }
}

/// The columns a search restricts and the values it compares them with,
/// in the order package, level, role, platform, site.
pub open spec fn find_pkgcoords_entries(f: FindPkgCoords) -> Seq<(Seq<char>, Seq<char>)> {
    let e0 = Seq::<(Seq<char>, Seq<char>)>::empty();
    let e1 = match f.package {
        Some(p) => e0.push(("package"@, p@)),
        None => e0,
    };
    let e2 = match f.level {
        Some(x) => e1.push(("level"@, under_root(x@, "facility"@))),
        None => e1,
    };
    let e3 = match f.role {
        Some(x) => e2.push(("role"@, under_root(x@, "any"@))),
        None => e2,
    };
    let e4 = match f.platform {
        Some(x) => e3.push(("platform"@, under_root(x@, "any"@))),
        None => e3,
    };
    match f.site {
        Some(x) => e4.push(("site"@, under_root(x@, "any"@))),
        None => e4,
    }
}

/// The conditions on the restricted columns, numbered from 1; each after
/// the first is joined by AND. No WHERE precedes them.
pub open spec fn find_pkgcoords_conditions(entries: Seq<(Seq<char>, Seq<char>)>) -> Seq<char>
    decreases entries.len(),
{
    if entries.len() == 0 {
        Seq::empty()
    } else {
        let i = entries.len() - 1;
        find_pkgcoords_conditions(entries.drop_last()) + " "@ + (if i == 0 {
            Seq::<char>::empty()
        } else {
            " AND "@
        }) + " "@ + entries.last().0 + " = $"@ + decimal((i + 1) as nat)
    }
}

/// The query text of a package coordinates search.
pub open spec fn find_pkgcoords_query(f: FindPkgCoords) -> Seq<char> {
    "SELECT 
                        pkgcoord_id, 
                        package, 
                        level_name, 
                        role_name, 
                        platform_name,
                        site_name, 
                    FROM pkgcoord_view"@ + find_pkgcoords_conditions(find_pkgcoords_entries(f))
}

/// A value as a path under `root`.
fn path_under(x: &str, root: &str) -> (r: String)
    ensures
        r@ == under_root(x@, root@),
{
    if str_eq(x, root) {
        String::from_str(x)
    } else {
        let mut s = String::from_str(root);
        s.append(".");
        s.append(x);
        s
    }
}

impl<'a> FindPkgCoords<'a> {
    /// A search for every package coordinate on `client`.
    pub fn new(client: &'a mut postgres::Client) -> (r: Self)
        ensures
            r.package is None,
            r.level is None,
            r.role is None,
            r.platform is None,
            r.site is None,
    {
        FindPkgCoords { client, package: None, level: None, role: None, platform: None, site: None }
    }

    /// Set the package.
    pub fn package(&mut self, package_n: &'a str) -> (r: &mut Self)
        ensures
            same_find_pkgcoords_search(*r, FindPkgCoords { package: Some(package_n), ..*old(self) }),
            *final(self) == *final(r),
    {
        self.package = Some(package_n);
        self
    }

    /// Set the level.
    pub fn level(&mut self, level_n: &'a str) -> (r: &mut Self)
        ensures
            same_find_pkgcoords_search(*r, FindPkgCoords { level: Some(level_n), ..*old(self) }),
            *final(self) == *final(r),
    {
        self.level = Some(level_n);
        self
    }

    /// Set the role.
    pub fn role(&mut self, role_n: &'a str) -> (r: &mut Self)
        ensures
            same_find_pkgcoords_search(*r, FindPkgCoords { role: Some(role_n), ..*old(self) }),
            *final(self) == *final(r),
    {
        self.role = Some(role_n);
        self
    }

    /// Set the platform.
    pub fn platform(&mut self, platform_n: &'a str) -> (r: &mut Self)
        ensures
            same_find_pkgcoords_search(*r, FindPkgCoords { platform: Some(platform_n), ..*old(self) }),
            *final(self) == *final(r),
    {
        self.platform = Some(platform_n);
        self
    }

    /// Set the site.
    pub fn site(&mut self, site_n: &'a str) -> (r: &mut Self)
        ensures
            same_find_pkgcoords_search(*r, FindPkgCoords { site: Some(site_n), ..*old(self) }),
            *final(self) == *final(r),
    {
        self.site = Some(site_n);
        self
    }

    /// Set or clear the package.
    pub fn package_opt(&mut self, package_n: Option<&'a str>) -> (r: &mut Self)
        ensures
            same_find_pkgcoords_search(*r, FindPkgCoords { package: package_n, ..*old(self) }),
            *final(self) == *final(r),
    {
        self.package = package_n;
        self
    }

    /// Set or clear the level.
    pub fn level_opt(&mut self, level_n: Option<&'a str>) -> (r: &mut Self)
        ensures
            same_find_pkgcoords_search(*r, FindPkgCoords { level: level_n, ..*old(self) }),
            *final(self) == *final(r),
    {
        self.level = level_n;
        self
    }

    /// Set or clear the role.
    pub fn role_opt(&mut self, role_n: Option<&'a str>) -> (r: &mut Self)
        ensures
            same_find_pkgcoords_search(*r, FindPkgCoords { role: role_n, ..*old(self) }),
            *final(self) == *final(r),
    {
        self.role = role_n;
        self
    }

    /// Set or clear the platform.
    pub fn platform_opt(&mut self, platform_n: Option<&'a str>) -> (r: &mut Self)
        ensures
            same_find_pkgcoords_search(*r, FindPkgCoords { platform: platform_n, ..*old(self) }),
            *final(self) == *final(r),
    {
        self.platform = platform_n;
        self
    }

    /// Set or clear the site.
    pub fn site_opt(&mut self, site_n: Option<&'a str>) -> (r: &mut Self)
        ensures
            same_find_pkgcoords_search(*r, FindPkgCoords { site: site_n, ..*old(self) }),
            *final(self) == *final(r),
    {
        self.site = site_n;
        self
    }

    /// The restricted columns and their values.
    fn entries(&self) -> (r: (Vec<&'static str>, Vec<String>))
        ensures
            r.0.len() == find_pkgcoords_entries(*self).len(),
            r.1.len() == find_pkgcoords_entries(*self).len(),
            find_pkgcoords_entries(*self).len() <= 5,
            forall|k: int| 0 <= k < r.0.len() ==> #[trigger] r.0@[k]@ == find_pkgcoords_entries(*self)[k].0,
            forall|k: int| 0 <= k < r.1.len() ==> #[trigger] r.1@[k]@ == find_pkgcoords_entries(*self)[k].1,
    {
        let mut names: Vec<&'static str> = Vec::new();
        let mut params: Vec<String> = Vec::new();
        let ghost mut e: Seq<(Seq<char>, Seq<char>)> = Seq::empty();
        if let Some(p) = self.package {
            names.push("package");
            params.push(String::from_str(p));
            proof {
                e = e.push(("package"@, p@));
            }
        }
        if let Some(x) = self.level {
            names.push("level");
            params.push(path_under(x, "facility"));
            proof {
                e = e.push(("level"@, under_root(x@, "facility"@)));
            }
        }
        if let Some(x) = self.role {
            names.push("role");
            params.push(path_under(x, "any"));
            proof {
                e = e.push(("role"@, under_root(x@, "any"@)));
            }
        }
        if let Some(x) = self.platform {
            names.push("platform");
            params.push(path_under(x, "any"));
            proof {
                e = e.push(("platform"@, under_root(x@, "any"@)));
            }
        }
        if let Some(x) = self.site {
            names.push("site");
            params.push(path_under(x, "any"));
            proof {
                e = e.push(("site"@, under_root(x@, "any"@)));
            }
        }
        assert(e =~= find_pkgcoords_entries(*self));
        (names, params)
    }

    /// The query text and its parameters: the values of the restricted
    /// columns, in order.
    pub fn get_query_str(&self) -> (r: (String, Vec<String>))
        ensures
            r.0@ == find_pkgcoords_query(*self),
            r.1.deep_view() == find_pkgcoords_entries(*self).map_values(
                |e: (Seq<char>, Seq<char>)| e.1,
            ),
    {
        let (names, params) = self.entries();
        let ghost entries = find_pkgcoords_entries(*self);
        proof {
            assert forall|k: int| 0 <= k < params.len() implies params.deep_view()[k]
                == entries.map_values(|e: (Seq<char>, Seq<char>)| e.1)[k] by {
                assert(params@[k]@ == entries[k].1);
            }
            assert(params.deep_view() =~= entries.map_values(|e: (Seq<char>, Seq<char>)| e.1));
        }
        let mut query_str = String::from_str("SELECT 
                        pkgcoord_id, 
                        package, 
                        level_name, 
                        role_name, 
                        platform_name,
                        site_name, 
                    FROM pkgcoord_view");
        let mut i: usize = 0;
        while i < names.len()
            invariant
                i <= names.len(),
                names.len() == entries.len(),
                entries.len() <= 5,
                forall|k: int| 0 <= k < names.len() ==> #[trigger] names@[k]@ == entries[k].0,
                query_str@ == "SELECT 
                        pkgcoord_id, 
                        package, 
                        level_name, 
                        role_name, 
                        platform_name,
                        site_name, 
                    FROM pkgcoord_view"@ + find_pkgcoords_conditions(entries.take(i as int)),
            decreases names.len() - i,
        {
            assert(entries.take(i as int + 1).drop_last() =~= entries.take(i as int));
            query_str.append(" ");
            if i > 0 {
                query_str.append(" AND ");
            }
            query_str.append(" ");
            query_str.append(names[i]);
            query_str.append(" = $");
            push_decimal(&mut query_str, (i + 1) as u64);
            proof {
                let t = entries.take(i as int + 1);
                assert(t.last() == entries[i as int]);
                assert(query_str@ =~= "SELECT 
                        pkgcoord_id, 
                        package, 
                        level_name, 
                        role_name, 
                        platform_name,
                        site_name, 
                    FROM pkgcoord_view"@ + find_pkgcoords_conditions(t));
            }
            i = i + 1;
        }
        assert(entries.take(names.len() as int) =~= entries);
        (query_str, params)
    }
}

} // verus!
