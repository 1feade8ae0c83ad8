//! The structure of a packages.xml file: a show with its packages, and the
//! roles with theirs. Writing it out as XML is left to the caller.

use crate::db::find_all::versionpins::FindAllVersionPinsRow;
use crate::io::xml_node::{attrs_v, children, closed, open_children, prune_closed_contents, XmlNode};
use crate::text::{count_char, lemma_split_len, split_char, split_on};
use vstd::prelude::*;

verus! {

/// What a package element holds: name, version, os, site and the packages
/// that go with it.
pub type PackageV = (Seq<char>, Seq<char>, Option<Seq<char>>, Option<Seq<char>>, Seq<Seq<char>>);

/// What a role element holds: its name and its packages.
pub type RoleV = (Seq<char>, Seq<PackageV>);

/// The text of an optional string.
pub open spec fn opt_view(s: Option<String>) -> Option<Seq<char>> {
    match s {
        Some(x) => Some(x@),
        None => None,
    }
}

/// The text of an optional `&str`.
pub open spec fn opt_str_view(s: Option<&str>) -> Option<Seq<char>> {
    match s {
        Some(x) => Some(x@),
        None => None,
    }
}

/// An optional `&str` as an owned string.
fn opt_string(s: Option<&str>) -> (r: Option<String>)
    ensures
        opt_view(r) == opt_str_view(s),
{
    match s {
        Some(x) => Some(String::from_str(x)),
        None => None,
    }
}

/// A package that goes with another: `<withs package=".."/>`.
#[derive(Debug)]
pub struct With {
    pub package: String,
}

impl View for With {
    type V = Seq<char>;

    open spec fn view(&self) -> Seq<char> {
        self.package@
    }
}

impl With {
    /// The with of the named package.
    pub fn new(package: &str) -> (r: Self)
        ensures
            r@ == package@,
    {
        Self { package: String::from_str(package) }
    }
}

/// A package element: a distribution, where it applies, and the packages
/// that go with it.
#[derive(Debug)]
pub struct Package {
    pub name: String,
    pub version: String,
    pub os: Option<String>,
    pub site: Option<String>,
    pub withs: Vec<With>,
}

impl View for Package {
    type V = PackageV;

    open spec fn view(&self) -> PackageV {
        (
            self.name@,
            self.version@,
            opt_view(self.os),
            opt_view(self.site),
            self.withs@.map_values(|w: With| w@),
        )
    }
}

impl Package {
    /// A package of the given name and version, os and site, with no
    /// packages going with it.
    pub fn new(name: &str, version: &str, os: Option<&str>, site: Option<&str>) -> (r: Self)
        ensures
            r@ == (name@, version@, opt_str_view(os), opt_str_view(site), Seq::<Seq<char>>::empty()),
    {
        let r = Self {
            name: String::from_str(name),
            version: String::from_str(version),
            withs: Vec::new(),
            os: opt_string(os),
            site: opt_string(site),
        };
        assert(r.withs@.map_values(|w: With| w@) =~= Seq::<Seq<char>>::empty());
        r
    }

    /// A package of the given name and version, for any os and site.
    pub fn from_name_and_version(name: &str, version: &str) -> (r: Self)
        ensures
            r@ == (name@, version@, None::<Seq<char>>, None::<Seq<char>>, Seq::<Seq<char>>::empty()),
    {
        let r = Self {
            name: String::from_str(name),
            version: String::from_str(version),
            withs: Vec::new(),
            os: None,
            site: None,
        };
        assert(r.withs@.map_values(|w: With| w@) =~= Seq::<Seq<char>>::empty());
        r
    }

    /// The package of a distribution `name-version`; `None` unless the
    /// distribution holds exactly one dash.
    pub fn from_dist(dist: &str) -> (r: Option<Self>)
        ensures
            r is Some <==> count_char(dist@, '-') == 1,
            r matches Some(p) ==> p@ == (
                split_char(dist@, '-')[0],
                split_char(dist@, '-')[1],
                None::<Seq<char>>,
                None::<Seq<char>>,
                Seq::<Seq<char>>::empty(),
            ),
    {
        let pieces = split_on(dist, '-');
        proof {
            lemma_split_len(dist@, '-');
            assert(pieces.deep_view().len() == pieces@.len());
        }
        if pieces.len() == 2 {
            assert(pieces.deep_view()[0] == pieces@[0]@);
            assert(pieces.deep_view()[1] == pieces@[1]@);
            Some(Self::from_name_and_version(pieces[0].as_str(), pieces[1].as_str()))
        } else {
            None
        }
    }

    /// Add a package that goes with this one.
    pub fn add_with(&mut self, with: With)
        ensures
            final(self)@ == (old(self)@.0, old(self)@.1, old(self)@.2, old(self)@.3, old(self)@.4.push(
                with@,
            )),
    {
        let ghost w = with@;
        self.withs.push(with);
        assert(self.withs@.map_values(|x: With| x@) =~= old(self)@.4.push(w));
    }

    /// The package with one more package that goes with it.
    pub fn add_with_owned(self, with: With) -> (r: Self)
        ensures
            r@ == (self@.0, self@.1, self@.2, self@.3, self@.4.push(with@)),
    {
        let mut s = self;
        s.add_with(with);
        s
    }

    /// Set or clear the os.
    pub fn set_os(&mut self, os: Option<&str>)
        ensures
            final(self)@ == (old(self)@.0, old(self)@.1, opt_str_view(os), old(self)@.3, old(self)@.4),
    {
        self.os = opt_string(os);
    }

    /// The package with the os set or cleared.
    pub fn set_os_owned(self, os: Option<&str>) -> (r: Self)
        ensures
            r@ == (self@.0, self@.1, opt_str_view(os), self@.3, self@.4),
    {
        let mut s = self;
        s.set_os(os);
        s
    }

    /// Set or clear the site.
    pub fn set_site(&mut self, site: Option<&str>)
        ensures
            final(self)@ == (old(self)@.0, old(self)@.1, old(self)@.2, opt_str_view(site), old(self)@.4),
    {
        self.site = opt_string(site);
    }

    /// The package with the site set or cleared.
    pub fn set_site_owned(self, site: Option<&str>) -> (r: Self)
        ensures
            r@ == (self@.0, self@.1, self@.2, opt_str_view(site), self@.4),
    {
        let mut s = self;
        s.set_site(site);
        s
    }
}

/// A list of package elements.
#[derive(Debug)]
pub struct Packages {
    pub package: Vec<Package>,
}

impl View for Packages {
    type V = Seq<PackageV>;

    open spec fn view(&self) -> Seq<PackageV> {
        self.package@.map_values(|p: Package| p@)
    }
}

impl Packages {
    /// No packages.
    pub fn new() -> (r: Self)
        ensures
            r@ == Seq::<PackageV>::empty(),
    {
        let r = Self { package: Vec::new() };
        assert(r@ =~= Seq::<PackageV>::empty());
        r
    }

    /// Add a package at the end.
    pub fn push(&mut self, package: Package)
        ensures
            final(self)@ == old(self)@.push(package@),
    {
        let ghost p = package@;
        self.package.push(package);
        assert(self@ =~= old(self)@.push(p));
    }
}

/// A role element: a role and its packages.
#[derive(Debug)]
pub struct Role {
    pub name: String,
    pub packages: Packages,
}

impl View for Role {
    type V = RoleV;

    open spec fn view(&self) -> RoleV {
        (self.name@, self.packages@)
    }
}

impl Role {
    /// The role of the given name, with no packages.
    pub fn new(name: &str) -> (r: Self)
        ensures
            r@ == (name@, Seq::<PackageV>::empty()),
    {
        Self { name: String::from_str(name), packages: Packages::new() }
    }

    /// Add a package to the role.
    pub fn add_package(&mut self, package: Package)
        ensures
            final(self)@ == (old(self)@.0, old(self)@.1.push(package@)),
    {
        self.packages.push(package);
    }

    /// The role with one more package.
    pub fn add_package_owned(self, package: Package) -> (r: Self)
        ensures
            r@ == (self@.0, self@.1.push(package@)),
    {
        let mut s = self;
        s.add_package(package);
        s
    }
}

/// A list of role elements.
#[derive(Debug)]
pub struct Roles {
    pub role: Vec<Role>,
}

impl View for Roles {
    type V = Seq<RoleV>;

    open spec fn view(&self) -> Seq<RoleV> {
        self.role@.map_values(|r: Role| r@)
    }
}

impl Roles {
    /// No roles.
    pub fn new() -> (r: Roles)
        ensures
            r@ == Seq::<RoleV>::empty(),
    {
        let r = Roles { role: Vec::new() };
        assert(r@ =~= Seq::<RoleV>::empty());
        r
    }

    /// Add a role at the end.
    pub fn push(&mut self, role: Role)
        ensures
            final(self)@ == old(self)@.push(role@),
    {
        let ghost v = role@;
        self.role.push(role);
        assert(self@ =~= old(self)@.push(v));
    }

    /// The name of the last role, if there is one.
    pub fn last_role(&self) -> (r: Option<&str>)
        ensures
            match r {
                Some(n) => self@.len() > 0 && n@ == self@.last().0,
                None => self@.len() == 0,
            },
    {
        let role_len = self.role.len();
        if role_len == 0 {
            return None;
        }
        Some(self.role[role_len - 1].name.as_str())
    }
}

/// The show element: the show's packages and its roles.
#[derive(Debug)]
pub struct Show {
    pub name: String,
    pub packages: Packages,
    pub roles: Roles,
}

impl View for Show {
    type V = (Seq<char>, Seq<PackageV>, Seq<RoleV>);

    open spec fn view(&self) -> (Seq<char>, Seq<PackageV>, Seq<RoleV>) {
        (self.name@, self.packages@, self.roles@)
    }
}

impl Show {
    /// The show of the given name, with no packages and no roles.
    pub fn new(show: &str) -> (r: Self)
        ensures
            r@ == (show@, Seq::<PackageV>::empty(), Seq::<RoleV>::empty()),
    {
        Self { name: String::from_str(show), packages: Packages::new(), roles: Roles::new() }
    }

    /// Add a package to the show.
    pub fn add_package(&mut self, package: Package)
        ensures
            final(self)@ == (old(self)@.0, old(self)@.1.push(package@), old(self)@.2),
    {
        self.packages.push(package)
    }

    /// The show with one more package.
    pub fn add_package_owned(self, package: Package) -> (r: Self)
        ensures
            r@ == (self@.0, self@.1.push(package@), self@.2),
    {
        let mut s = self;
        s.packages.push(package);
        s
    }

    /// Add a role to the show.
    pub fn add_role(&mut self, role: Role)
        ensures
            final(self)@ == (old(self)@.0, old(self)@.1, old(self)@.2.push(role@)),
    {
        self.roles.push(role)
    }

    /// The show with one more role.
    pub fn add_role_owned(self, role: Role) -> (r: Self)
        ensures
            r@ == (self@.0, self@.1, self@.2.push(role@)),
    {
        let mut s = self;
        s.roles.push(role);
        s
    }
}

/// The settings of the conversion to XML: whether elements with neither
/// contents nor text are dropped.
pub struct ToXml {
    pub prune_closed: bool,
}

impl ToXml {
    /// A conversion that drops closed elements.
    pub fn new() -> (r: Self)
        ensures
            r.prune_closed,
    {
        Self { prune_closed: true }
    }
}

/// The package element of a version pin: its distribution's package and
/// version, its platform (as os) and site where they are not `any`, and the
/// packages that go with it.
pub open spec fn pin_package(row: FindAllVersionPinsRow) -> PackageV {
    (
        split_char(row.distribution@, '-')[0],
        split_char(row.distribution@, '-')[1],
        row.coords.platform@,
        row.coords.site@,
        match row.withs {
            Some(w) => w.deep_view(),
            None => Seq::empty(),
        },
    )
}

/// Where the making of a show stands: its name, packages and roles so far,
/// the role being gathered (if any) and the packages gathered for it.
type XmlState = (Seq<char>, Seq<PackageV>, Seq<RoleV>, Option<Seq<char>>, Seq<PackageV>);

/// One version pin taken into the show. A pin of a role is gathered with
/// the pins of the same role before it; a pin of another role first closes
/// the role gathered so far. A pin of any role closes the role gathered so
/// far and goes to the show's own packages.
spec fn xml_step(st: XmlState, row: FindAllVersionPinsRow) -> XmlState {
    let p = pin_package(row);
    match row.coords.role@ {
        Some(r) => match st.3 {
            Some(l) => if r == l {
                (st.0, st.1, st.2, Some(r), st.4.push(p))
            } else {
                (st.0, st.1, st.2.push((l, st.4)), Some(r), seq![p])
            },
            None => (st.0, st.1, st.2, Some(r), st.4.push(p)),
        },
        None => match st.3 {
            Some(l) => (st.0, st.1.push(p), st.2.push((l, st.4)), None, Seq::empty()),
            None => (st.0, st.1.push(p), st.2, None, st.4),
        },
    }
}

/// The making of a show after the given version pins, in order.
spec fn xml_state(show: Seq<char>, pins: Seq<FindAllVersionPinsRow>) -> XmlState
    decreases pins.len(),
{
    if pins.len() == 0 {
        (show, Seq::empty(), Seq::empty(), None, Seq::empty())
    } else {
        xml_step(xml_state(show, pins.drop_last()), pins.last())
    }
}

/// The package elements of the pins of any role, in order.
pub open spec fn any_role_packages(pins: Seq<FindAllVersionPinsRow>) -> Seq<PackageV>
    decreases pins.len(),
{
    if pins.len() == 0 {
        Seq::empty()
    } else {
        let before = any_role_packages(pins.drop_last());
        if pins.last().coords.role@ is None {
            before.push(pin_package(pins.last()))
        } else {
            before
        }
    }
}

/// The role of the pin at `k`, `None` for any role.
pub open spec fn pin_role(pins: Seq<FindAllVersionPinsRow>, k: int) -> Option<Seq<char>> {
    pins[k].coords.role@
}

/// Where the run of pins of one role that ends at `k` starts: the first of
/// the pins just before `k`, and `k` itself, that all have the role of `k`.
pub open spec fn run_start(pins: Seq<FindAllVersionPinsRow>, k: int) -> int
    decreases k,
{
    if k > 0 && pin_role(pins, k - 1) == pin_role(pins, k) {
        run_start(pins, k - 1)
    } else {
        k
    }
}

/// The package elements of the run of pins that ends at `k`.
pub open spec fn run_packages(pins: Seq<FindAllVersionPinsRow>, k: int) -> Seq<PackageV> {
    pins.subrange(run_start(pins, k), k + 1).map_values(|p: FindAllVersionPinsRow| pin_package(p))
}

/// The role elements of a show: one for each run of pins of the same role
/// (not any role) that another pin follows, with the packages of the run,
/// in order. A run that ends the pins is not closed and makes no role.
pub open spec fn closed_role_runs(pins: Seq<FindAllVersionPinsRow>) -> Seq<RoleV>
    decreases pins.len(),
{
    if pins.len() < 2 {
        Seq::empty()
    } else {
        let k = pins.len() - 2;
        let before = closed_role_runs(pins.drop_last());
        if pin_role(pins, k) is Some && pin_role(pins, k) != pin_role(pins, k + 1) {
            before.push((pin_role(pins, k)->0, run_packages(pins, k)))
        } else {
            before
        }
    }
}

/// A run that ends before the last pin is the same without the last pin.
proof fn lemma_run_prefix(pins: Seq<FindAllVersionPinsRow>, k: int)
    requires
        0 <= k < pins.len() - 1,
    ensures
        run_start(pins.drop_last(), k) == run_start(pins, k),
        run_packages(pins.drop_last(), k) == run_packages(pins, k),
        0 <= run_start(pins, k) <= k,
    decreases k,
{
    if k > 0 {
        lemma_run_prefix(pins, k - 1);
    }
    assert(pins.drop_last().subrange(run_start(pins, k), k + 1) =~= pins.subrange(
        run_start(pins, k),
        k + 1,
    ));
}

/// What the making of a show holds after the pins: the name, the packages
/// of the pins of any role, the closed role runs, the role of the last pin
/// and, where it has one, the packages of the run it ends.
proof fn lemma_xml_state(show: Seq<char>, pins: Seq<FindAllVersionPinsRow>)
    ensures
        xml_state(show, pins).0 == show,
        xml_state(show, pins).1 == any_role_packages(pins),
        xml_state(show, pins).2 == closed_role_runs(pins),
        xml_state(show, pins).3 == (if pins.len() == 0 {
            None
        } else {
            pin_role(pins, pins.len() - 1)
        }),
        xml_state(show, pins).4 == (if pins.len() > 0 && pin_role(pins, pins.len() - 1) is Some {
            run_packages(pins, pins.len() - 1)
        } else {
            Seq::empty()
        }),
    decreases pins.len(),
{
    if pins.len() > 0 {
        let p = pins.drop_last();
        let n = p.len() as int;
        lemma_xml_state(show, p);
        let x = pins.last();
        assert(pins[n] == x);
        assert forall|j: int| 0 <= j < n implies #[trigger] pins[j] == p[j] by {}
        if n > 0 {
            lemma_run_prefix(pins, n - 1);
            assert(pin_role(p, n - 1) == pin_role(pins, n - 1));
        }
        if pin_role(pins, n) is Some && n > 0 && pin_role(pins, n - 1) == pin_role(pins, n) {
            assert(run_start(pins, n) == run_start(pins, n - 1));
            assert(pins.subrange(run_start(pins, n), n + 1) =~= pins.subrange(
                run_start(pins, n - 1),
                n,
            ).push(x));
        } else if pin_role(pins, n) is Some {
            assert(run_start(pins, n) == n);
            assert(pins.subrange(n, n + 1) =~= seq![x]);
            assert(run_packages(pins, n) =~= seq![pin_package(x)]);
        }
    }
}

/// The package element of a version pin.
fn package_of_pin(row: &FindAllVersionPinsRow) -> (r: Package)
    requires
        row.distribution@.contains('-'),
    ensures
        r@ == pin_package(*row),
{
    let mut package = Package::new(
        row.distribution.package(),
        row.distribution.version(),
        None,
        None,
    );
    match &row.withs {
        Some(withs) => {
            let mut k: usize = 0;
            while k < withs.len()
                invariant
                    k <= withs.len(),
                    package@ == (
                        split_char(row.distribution@, '-')[0],
                        split_char(row.distribution@, '-')[1],
                        None::<Seq<char>>,
                        None::<Seq<char>>,
                        withs.deep_view().take(k as int),
                    ),
                decreases withs.len() - k,
            {
                package.add_with(With::new(withs[k].as_str()));
                assert(withs.deep_view().take(k as int + 1) =~= withs.deep_view().take(
                    k as int,
                ).push(withs@[k as int]@));
                k = k + 1;
            }
            assert(withs.deep_view().take(withs.len() as int) =~= withs.deep_view());
        },
        None => {
            assert(package@.4 =~= Seq::<Seq<char>>::empty());
        },
    }
    let site = row.coords.site();
    if !site.is_any() {
        package.set_site(Some(site.to_string().as_str()));
    }
    let platform = row.coords.platform();
    if !platform.is_any() {
        package.set_os(Some(platform.to_string().as_str()));
    }
    package
}

/// The show element of a show's version pins, ordered by role then
/// package: pins of a role are gathered into that role, pins of any role go
/// to the show's own packages. The role still being gathered when the pins
/// run out is not added.
pub fn show_from_pins(show: &str, pins: &Vec<FindAllVersionPinsRow>) -> (r: Show)
    requires
        forall|i: int| 0 <= i < pins@.len() ==> (#[trigger] pins@[i]).distribution@.contains('-'),
    ensures
        r@.0 == show@,
        r@.1 == any_role_packages(pins@),
        r@.2 == closed_role_runs(pins@),
{
    let mut result = Show::new(show);
    let mut last_role: Option<String> = None;
    let mut role_packages: Vec<Package> = Vec::new();
    let mut i: usize = 0;
    while i < pins.len()
        invariant
            i <= pins.len(),
            forall|j: int| 0 <= j < pins@.len() ==> (#[trigger] pins@[j]).distribution@.contains('-'),
            (result@.0, result@.1, result@.2, opt_view(last_role), role_packages@.map_values(
                |p: Package| p@,
            )) == xml_state(show@, pins@.take(i as int)),
        decreases pins.len() - i,
    {
        let row = &pins[i];
        proof {
            assert(pins@.take(i as int + 1).drop_last() =~= pins@.take(i as int));
            assert(pins@.take(i as int + 1).last() == pins@[i as int]);
        }
        let ghost before = role_packages@.map_values(|p: Package| p@);
        let package = package_of_pin(row);
        let role = row.coords.role();
        if !role.is_any() {
            let role_str = role.to_string();
            match last_role {
                Some(last) => {
                    if crate::text::str_eq(role_str.as_str(), last.as_str()) {
                        role_packages.push(package);
                        assert(role_packages@.map_values(|p: Package| p@) =~= before.push(
                            pin_package(*row),
                        ));
                    } else {
                        let mut taken: Vec<Package> = Vec::new();
                        std::mem::swap(&mut taken, &mut role_packages);
                        let role_tag = Role { name: last, packages: Packages { package: taken } };
                        result.add_role(role_tag);
                        role_packages.push(package);
                        assert(role_packages@.map_values(|p: Package| p@) =~= seq![
                            pin_package(*row),
                        ]);
                    }
                },
                None => {
                    role_packages.push(package);
                    assert(role_packages@.map_values(|p: Package| p@) =~= before.push(
                        pin_package(*row),
                    ));
                },
            }
            last_role = Some(role_str);
        } else {
            match last_role {
                Some(last) => {
                    let mut taken: Vec<Package> = Vec::new();
                    std::mem::swap(&mut taken, &mut role_packages);
                    let role_tag = Role { name: last, packages: Packages { package: taken } };
                    result.add_role(role_tag);
                    assert(role_packages@.map_values(|p: Package| p@) =~= Seq::<PackageV>::empty());
                },
                None => {},
            }
            result.add_package(package);
            last_role = None;
        }
        i = i + 1;
    }
    assert(pins@.take(pins.len() as int) =~= pins@);
    proof {
        lemma_xml_state(show@, pins@);
    }
    result
}

/// An optional attribute: present where it has a value.
pub open spec fn opt_attr(name: Seq<char>, v: Option<Seq<char>>) -> Seq<(Seq<char>, Seq<char>)> {
    match v {
        Some(x) => seq![(name, x)],
        None => Seq::empty(),
    }
}

/// The attributes of a package element: name, version, then os and site
/// where it has them.
pub open spec fn package_attrs(p: PackageV) -> Seq<(Seq<char>, Seq<char>)> {
    seq![("name"@, p.0), ("version"@, p.1)] + opt_attr("os"@, p.2) + opt_attr("site"@, p.3)
}

/// `n` is the element `<withs package=".."/>` of the package `w`.
pub open spec fn with_node(n: XmlNode, w: Seq<char>) -> bool {
    &&& n.name@ == "withs"@
    &&& attrs_v(n.attrs@) == seq![("package"@, w)]
    &&& n.contents is None
    &&& n.text is None
}

/// `n` is the element of the package `p`, holding one with element for
/// each package that goes with it, and no contents where none does.
pub open spec fn package_node(n: XmlNode, p: PackageV) -> bool {
    &&& n.name@ == "package"@
    &&& attrs_v(n.attrs@) == package_attrs(p)
    &&& n.text is None
    &&& (n.contents is None <==> p.4.len() == 0)
    &&& children(n).len() == p.4.len()
    &&& forall|i: int| 0 <= i < p.4.len() ==> with_node(#[trigger] children(n)[i], p.4[i])
}

/// `n` is the `packages` element of the packages `ps`, in order, with no
/// contents where there are none.
pub open spec fn packages_node(n: XmlNode, ps: Seq<PackageV>) -> bool {
    &&& n.name@ == "packages"@
    &&& n.attrs@.len() == 0
    &&& n.text is None
    &&& (n.contents is None <==> ps.len() == 0)
    &&& children(n).len() == ps.len()
    &&& forall|i: int| 0 <= i < ps.len() ==> package_node(#[trigger] children(n)[i], ps[i])
}

/// `n` is the element of the role `r`: its name and its packages element.
pub open spec fn role_node(n: XmlNode, r: RoleV) -> bool {
    &&& n.name@ == "role"@
    &&& attrs_v(n.attrs@) == seq![("name"@, r.0)]
    &&& n.text is None
    &&& n.contents is Some
    &&& children(n).len() == 1
    &&& packages_node(children(n)[0], r.1)
}

/// `n` is the `roles` element of the roles `rs`, in order, with no contents
/// where there are none.
pub open spec fn roles_node(n: XmlNode, rs: Seq<RoleV>) -> bool {
    &&& n.name@ == "roles"@
    &&& n.attrs@.len() == 0
    &&& n.text is None
    &&& (n.contents is None <==> rs.len() == 0)
    &&& children(n).len() == rs.len()
    &&& forall|i: int| 0 <= i < rs.len() ==> role_node(#[trigger] children(n)[i], rs[i])
}

/// `n` is the element of the show `s`: its name, its packages element and
/// its roles element.
pub open spec fn show_node(n: XmlNode, s: (Seq<char>, Seq<PackageV>, Seq<RoleV>)) -> bool {
    &&& n.name@ == "show"@
    &&& attrs_v(n.attrs@) == seq![("name"@, s.0)]
    &&& n.text is None
    &&& n.contents is Some
    &&& children(n).len() == 2
    &&& packages_node(children(n)[0], s.1)
    &&& roles_node(children(n)[1], s.2)
}

/// `n` is the element of the show `s` without its closed elements: its
/// packages element where it has packages, then its roles element where
/// it has roles, and no contents where it has neither.
pub open spec fn pruned_show_node(n: XmlNode, s: (Seq<char>, Seq<PackageV>, Seq<RoleV>)) -> bool {
    &&& n.name@ == "show"@
    &&& attrs_v(n.attrs@) == seq![("name"@, s.0)]
    &&& n.text is None
    &&& (n.contents is None <==> s.1.len() == 0 && s.2.len() == 0)
    &&& children(n).len() == (if s.1.len() > 0 { 1int } else { 0int }) + (if s.2.len() > 0 {
        1int
    } else {
        0int
    })
    &&& s.1.len() > 0 ==> packages_node(children(n)[0], s.1)
    &&& s.2.len() > 0 ==> roles_node(children(n)[if s.1.len() > 0 { 1int } else { 0int }], s.2)
}

/// An element of the given name with no attributes, contents or text.
fn bare_element(name: &str) -> (r: XmlNode)
    ensures
        r.name@ == name@,
        r.attrs@.len() == 0,
        r.contents is None,
        r.text is None,
{
    XmlNode { name: String::from_str(name), attrs: Vec::new(), contents: None, text: None }
}

/// The nested elements, none where the list is empty.
fn contents_of(v: Vec<XmlNode>) -> (r: Option<Vec<XmlNode>>)
    ensures
        r is None <==> v@.len() == 0,
        r matches Some(c) ==> c@ == v@,
{
    if v.len() == 0 {
        None
    } else {
        Some(v)
    }
}

/// The element of a package that goes with another.
fn with_element(w: &With) -> (r: XmlNode)
    ensures
        with_node(r, w@),
{
    let mut n = bare_element("withs");
    n.attrs.push((String::from_str("package"), w.package.clone()));
    assert(attrs_v(n.attrs@) =~= seq![("package"@, w@)]);
    n
}

/// The element of a package.
fn package_element(p: &Package) -> (r: XmlNode)
    ensures
        package_node(r, p@),
{
    let mut n = bare_element("package");
    n.attrs.push((String::from_str("name"), p.name.clone()));
    n.attrs.push((String::from_str("version"), p.version.clone()));
    match &p.os {
        Some(os) => n.attrs.push((String::from_str("os"), os.clone())),
        None => {},
    }
    match &p.site {
        Some(site) => n.attrs.push((String::from_str("site"), site.clone())),
        None => {},
    }
    assert(attrs_v(n.attrs@) =~= package_attrs(p@));
    let mut items: Vec<XmlNode> = Vec::new();
    let mut i: usize = 0;
    while i < p.withs.len()
        invariant
            i <= p.withs.len(),
            items@.len() == i,
            forall|j: int| 0 <= j < i ==> with_node(#[trigger] items@[j], p.withs@[j]@),
        decreases p.withs.len() - i,
    {
        items.push(with_element(&p.withs[i]));
        i = i + 1;
    }
    n.contents = contents_of(items);
    n
}

/// The `packages` element of a list of packages.
fn packages_element(ps: &Packages) -> (r: XmlNode)
    ensures
        packages_node(r, ps@),
{
    let mut n = bare_element("packages");
    let mut items: Vec<XmlNode> = Vec::new();
    let mut i: usize = 0;
    while i < ps.package.len()
        invariant
            i <= ps.package.len(),
            items@.len() == i,
            forall|j: int| 0 <= j < i ==> package_node(#[trigger] items@[j], ps.package@[j]@),
        decreases ps.package.len() - i,
    {
        items.push(package_element(&ps.package[i]));
        i = i + 1;
    }
    n.contents = contents_of(items);
    n
}

/// The element of a role.
fn role_element(role: &Role) -> (r: XmlNode)
    ensures
        role_node(r, role@),
{
    let mut n = bare_element("role");
    n.attrs.push((String::from_str("name"), role.name.clone()));
    assert(attrs_v(n.attrs@) =~= seq![("name"@, role@.0)]);
    let mut items: Vec<XmlNode> = Vec::new();
    items.push(packages_element(&role.packages));
    n.contents = Some(items);
    n
}

/// The `roles` element of a list of roles.
fn roles_element(rs: &Roles) -> (r: XmlNode)
    ensures
        roles_node(r, rs@),
{
    let mut n = bare_element("roles");
    let mut items: Vec<XmlNode> = Vec::new();
    let mut i: usize = 0;
    while i < rs.role.len()
        invariant
            i <= rs.role.len(),
            items@.len() == i,
            forall|j: int| 0 <= j < i ==> role_node(#[trigger] items@[j], rs.role@[j]@),
        decreases rs.role.len() - i,
    {
        items.push(role_element(&rs.role[i]));
        i = i + 1;
    }
    n.contents = contents_of(items);
    n
}

/// The element of a show: its name, its packages and its roles.
pub fn show_element(show: &Show) -> (r: XmlNode)
    ensures
        show_node(r, show@),
{
    let mut n = bare_element("show");
    n.attrs.push((String::from_str("name"), show.name.clone()));
    assert(attrs_v(n.attrs@) =~= seq![("name"@, show@.0)]);
    let mut items: Vec<XmlNode> = Vec::new();
    items.push(packages_element(&show.packages));
    items.push(roles_element(&show.roles));
    n.contents = Some(items);
    n
}

impl ToXml {
    /// The element of a show, without its closed elements where the
    /// conversion drops them.
    pub fn to_xml(&self, show: &Show) -> (r: XmlNode)
        ensures
            !self.prune_closed ==> show_node(r, show@),
            self.prune_closed ==> pruned_show_node(r, show@),
    {
        let mut n = show_element(show);
        if self.prune_closed {
            let ghost c = children(n);
            proof {
                assert(closed(c[0]) <==> show@.1.len() == 0);
                assert(closed(c[1]) <==> show@.2.len() == 0);
                assert(c.drop_first().drop_first() =~= Seq::<XmlNode>::empty());
                assert(c.drop_first() =~= seq![c[1]]);
                assert(seq![c[1]].drop_first() =~= Seq::<XmlNode>::empty());
                assert(open_children(Seq::<XmlNode>::empty()) =~= Seq::<XmlNode>::empty());
                assert(open_children(seq![c[1]]) =~= (if closed(c[1]) {
                    Seq::<XmlNode>::empty()
                } else {
                    seq![c[1]]
                }));
                assert(open_children(c) =~= (if closed(c[0]) {
                    open_children(seq![c[1]])
                } else {
                    seq![c[0]] + open_children(seq![c[1]])
                }));
            }
            prune_closed_contents(&mut n);
        }
        n
    }
}

} // verus!
