//! Add version pins: pin one distribution at every combination of the
//! given levels, roles, platforms and sites.
use crate::db::add::statement::{first_occurrences, lemma_first_occurrences_empty, unique_names};
use crate::level::{names_facility, Level, LevelSpec};
use crate::platform::{parse_platform, Platform};
use crate::role::{parse_role, Role};
use crate::site::{parse_site, Site};
use crate::text::{ascii_lower, is_ascii_text, join};
use vstd::prelude::*;

verus! {

/// What is wrong with a platform.
#[derive(Debug, PartialEq, PartialOrd, Eq, Ord)]
pub enum InvalidPlatformKind {
    InvalidName,
    InvalidCharacter,
}

/// Why version pins could not be added.
#[allow(inconsistent_fields)]
#[derive(Debug)]
pub enum AddVersionPinsError {
    /// The database refused a statement.
    TokioPostgresError { msg: &'static str, source: tokio_postgres::Error },
    /// No level was given.
    NoLevelsError,
    /// No role was given.
    NoRolesError,
    /// No platform was given.
    NoPlatformsError,
    /// No site was given.
    NoSitesError,
    /// A platform cannot be used.
    InvalidPlatform { platform: String, kind: InvalidPlatformKind },
}

/// Pins a package version at the coordinates given.
pub struct AddVersionPins {
    package: String,
    version: String,
    levels: Vec<Level>,
    roles: Vec<Role>,
    platforms: Vec<Platform>,
    sites: Vec<Site>,
    result_cnt: u64,
}

/// `s` with `x` at its end, unless `s` holds it already.
pub open spec fn with_item<V>(s: Seq<V>, x: V) -> Seq<V> {
    if s.contains(x) {
        s
    } else {
        s.push(x)
    }
}

/// `s` with each of `xs` in turn, as `with_item` adds one.
pub open spec fn with_items<V>(s: Seq<V>, xs: Seq<V>) -> Seq<V>
    decreases xs.len(),
{
    if xs.len() == 0 {
        s
    } else {
        with_item(with_items(s, xs.drop_last()), xs.last())
    }
}

/// The role a name stands for; a name that is not a role stands for any
/// role.
pub open spec fn role_of(name: Seq<char>) -> Option<Seq<char>> {
    match parse_role(name) {
        Some(r) => r,
        None => None,
    }
}

/// The platform a name stands for; a name that is not a platform stands
/// for any platform.
pub open spec fn platform_of(name: Seq<char>) -> Option<Seq<char>> {
    match parse_platform(name) {
        Some(p) => p,
        None => None,
    }
}

/// The site a name stands for; a name that is not a site stands for any
/// site.
pub open spec fn site_of(name: Seq<char>) -> Option<Seq<char>> {
    match parse_site(name) {
        Some(s) => s,
        None => None,
    }
}

/// The text of a role, platform or site: its name, or `any`.
pub open spec fn name_or_any(v: Option<Seq<char>>) -> Seq<char> {
    match v {
        Some(n) => n,
        None => "any"@,
    }
}

/// The text of a level: `facility`, or its parts joined by dots.
pub open spec fn level_view_text(v: Option<(Option<Seq<char>>, Seq<Seq<char>>)>) -> Seq<char> {
    match v {
        None => "facility"@,
        Some((_, parts)) => join(parts, "."@),
    }
}

/// The parameters of the pins at one role, level and platform: one per
/// site, as `distribution, level, site, role, platform`.
pub open spec fn site_rows(
    d: Seq<char>,
    r: Seq<char>,
    l: Seq<char>,
    p: Seq<char>,
    sites: Seq<Seq<char>>,
) -> Seq<Seq<Seq<char>>> {
    Seq::new(sites.len(), |m: int| seq![d, l, sites[m], r, p])
}

/// The parameters of the pins at one role and level, platform by platform.
pub open spec fn platform_rows(
    d: Seq<char>,
    r: Seq<char>,
    l: Seq<char>,
    platforms: Seq<Seq<char>>,
    sites: Seq<Seq<char>>,
) -> Seq<Seq<Seq<char>>> {
    Seq::new(platforms.len(), |k: int| site_rows(d, r, l, platforms[k], sites)).flatten()
}

/// The parameters of the pins at one role, level by level.
pub open spec fn level_rows(
    d: Seq<char>,
    r: Seq<char>,
    levels: Seq<Seq<char>>,
    platforms: Seq<Seq<char>>,
    sites: Seq<Seq<char>>,
) -> Seq<Seq<Seq<char>>> {
    Seq::new(levels.len(), |j: int| platform_rows(d, r, levels[j], platforms, sites)).flatten()
}

/// The parameters of every pin, role by role, then level, platform and
/// site.
pub open spec fn pin_rows(
    d: Seq<char>,
    roles: Seq<Seq<char>>,
    levels: Seq<Seq<char>>,
    platforms: Seq<Seq<char>>,
    sites: Seq<Seq<char>>,
) -> Seq<Seq<Seq<char>>> {
    Seq::new(roles.len(), |i: int| level_rows(d, roles[i], levels, platforms, sites)).flatten()
}

/// Flattening one more part appends that part.
proof fn lemma_flatten_next<A>(n: nat, f: spec_fn(int) -> Seq<A>)
    ensures
        Seq::new(n + 1, f).flatten() == Seq::new(n, f).flatten() + f(n as int),
{
    assert(Seq::new(n + 1, f) =~= Seq::new(n, f).push(f(n as int)));
    Seq::new(n, f).lemma_flatten_push(f(n as int));
}

/// Parts of `m` items each flatten to `n * m` items.
proof fn lemma_flatten_uniform_len<A>(n: nat, f: spec_fn(int) -> Seq<A>, m: nat)
    requires
        forall|i: int| 0 <= i < n ==> (#[trigger] f(i)).len() == m,
    ensures
        Seq::new(n, f).flatten().len() == n * m,
    decreases n,
{
    if n == 0 {
        assert(Seq::new(0, f) =~= Seq::<Seq<A>>::empty());
    } else {
        lemma_flatten_uniform_len((n - 1) as nat, f, m);
        lemma_flatten_next((n - 1) as nat, f);
        assert(n * m == (n - 1) * m + m) by (nonlinear_arith);
    }
}

/// One pin is added for each combination of the distinct roles, levels,
/// platforms and sites.
pub proof fn lemma_pin_count(
    d: Seq<char>,
    roles: Seq<Seq<char>>,
    levels: Seq<Seq<char>>,
    platforms: Seq<Seq<char>>,
    sites: Seq<Seq<char>>,
)
    ensures
        pin_rows(d, roles, levels, platforms, sites).len() == roles.len() * levels.len()
            * platforms.len() * sites.len(),
{
    let s = sites.len();
    let p = platforms.len();
    let l = levels.len();
    let r = roles.len();
    assert forall|rr: Seq<char>, ll: Seq<char>|
        #[trigger] platform_rows(d, rr, ll, platforms, sites).len() == p * s by {
        let g = |k: int| site_rows(d, rr, ll, platforms[k], sites);
        lemma_flatten_uniform_len(p, g, s);
    }
    assert forall|rr: Seq<char>| #[trigger] level_rows(d, rr, levels, platforms, sites).len() == l * (
    p * s) by {
        let g = |j: int| platform_rows(d, rr, levels[j], platforms, sites);
        assert forall|j: int| 0 <= j < l implies (#[trigger] g(j)).len() == p * s by {
            assert(platform_rows(d, rr, levels[j], platforms, sites).len() == p * s);
        }
        lemma_flatten_uniform_len(l, g, p * s);
    }
    let g = |i: int| level_rows(d, roles[i], levels, platforms, sites);
    assert forall|i: int| 0 <= i < r implies (#[trigger] g(i)).len() == l * (p * s) by {
        assert(level_rows(d, roles[i], levels, platforms, sites).len() == l * (p * s));
    }
    lemma_flatten_uniform_len(r, g, l * (p * s));
    assert(r * (l * (p * s)) == r * l * p * s) by (nonlinear_arith);
}

/// Adding items one at a time, each only when it is not there yet, never
/// holds one twice.
pub proof fn lemma_with_items_distinct<V>(s: Seq<V>, xs: Seq<V>)
    requires
        s.no_duplicates(),
    ensures
        with_items(s, xs).no_duplicates(),
    decreases xs.len(),
{
    if xs.len() > 0 {
        lemma_with_items_distinct(s, xs.drop_last());
        let t = with_items(s, xs.drop_last());
        let x = xs.last();
        if !t.contains(x) {
            let u = t.push(x);
            assert forall|a: int, b: int| 0 <= a < u.len() && 0 <= b < u.len() && a != b implies u[a]
                != u[b] by {
                if a == u.len() - 1 && b < t.len() {
                    assert(t[b] == u[b]);
                } else if b == u.len() - 1 && a < t.len() {
                    assert(t[a] == u[a]);
                }
            }
        }
    }
}

/// Append to `out` the pins at one role, level and platform.
fn push_site_rows(
    out: &mut Vec<Vec<String>>,
    d: &String,
    r: &String,
    l: &String,
    p: &String,
    sites: &Vec<String>,
)
    ensures
        final(out).deep_view() == old(out).deep_view() + site_rows(
            d@,
            r@,
            l@,
            p@,
            sites.deep_view(),
        ),
{
    let ghost start = out.deep_view();
    let mut m: usize = 0;
    while m < sites.len()
        invariant
            m <= sites.len(),
            out.deep_view() == start + site_rows(d@, r@, l@, p@, sites.deep_view().take(m as int)),
        decreases sites.len() - m,
    {
        let row = vec![d.clone(), l.clone(), sites[m].clone(), r.clone(), p.clone()];
        assert(row.deep_view() =~= seq![d@, l@, sites@[m as int]@, r@, p@]);
        let ghost before = out.deep_view();
        out.push(row);
        assert(out.deep_view() =~= before.push(seq![d@, l@, sites@[m as int]@, r@, p@]));
        assert(site_rows(d@, r@, l@, p@, sites.deep_view().take(m as int + 1)) =~= site_rows(
            d@,
            r@,
            l@,
            p@,
            sites.deep_view().take(m as int),
        ).push(seq![d@, l@, sites@[m as int]@, r@, p@]));
        m = m + 1;
    }
    assert(sites.deep_view().take(sites.len() as int) =~= sites.deep_view());
}

/// Append to `out` the pins at one role and level.
fn push_platform_rows(
    out: &mut Vec<Vec<String>>,
    d: &String,
    r: &String,
    l: &String,
    platforms: &Vec<String>,
    sites: &Vec<String>,
)
    ensures
        final(out).deep_view() == old(out).deep_view() + platform_rows(
            d@,
            r@,
            l@,
            platforms.deep_view(),
            sites.deep_view(),
        ),
{
    let ghost start = out.deep_view();
    let ghost f = |k: int| site_rows(d@, r@, l@, platforms.deep_view()[k], sites.deep_view());
    let mut k: usize = 0;
    while k < platforms.len()
        invariant
            k <= platforms.len(),
            f == (|k: int| site_rows(d@, r@, l@, platforms.deep_view()[k], sites.deep_view())),
            out.deep_view() == start + Seq::new(k as nat, f).flatten(),
        decreases platforms.len() - k,
    {
        push_site_rows(out, d, r, l, &platforms[k], sites);
        proof {
            assert(platforms.deep_view()[k as int] == platforms@[k as int]@);
            lemma_flatten_next(k as nat, f);
        }
        k = k + 1;
    }
}

/// Append to `out` the pins at one role.
fn push_level_rows(
    out: &mut Vec<Vec<String>>,
    d: &String,
    r: &String,
    levels: &Vec<String>,
    platforms: &Vec<String>,
    sites: &Vec<String>,
)
    ensures
        final(out).deep_view() == old(out).deep_view() + level_rows(
            d@,
            r@,
            levels.deep_view(),
            platforms.deep_view(),
            sites.deep_view(),
        ),
{
    let ghost start = out.deep_view();
    let ghost f = |j: int|
        platform_rows(d@, r@, levels.deep_view()[j], platforms.deep_view(), sites.deep_view());
    let mut j: usize = 0;
    while j < levels.len()
        invariant
            j <= levels.len(),
            f == (|j: int|
                platform_rows(
                    d@,
                    r@,
                    levels.deep_view()[j],
                    platforms.deep_view(),
                    sites.deep_view(),
                )),
            out.deep_view() == start + Seq::new(j as nat, f).flatten(),
        decreases levels.len() - j,
    {
        push_platform_rows(out, d, r, &levels[j], platforms, sites);
        proof {
            assert(levels.deep_view()[j as int] == levels@[j as int]@);
            lemma_flatten_next(j as nat, f);
        }
        j = j + 1;
    }
}

/// The pins of every combination, role by role, then level, platform and
/// site.
fn all_pin_rows(
    d: &String,
    roles: &Vec<String>,
    levels: &Vec<String>,
    platforms: &Vec<String>,
    sites: &Vec<String>,
) -> (r: Vec<Vec<String>>)
    ensures
        r.deep_view() == pin_rows(
            d@,
            roles.deep_view(),
            levels.deep_view(),
            platforms.deep_view(),
            sites.deep_view(),
        ),
{
    let mut out: Vec<Vec<String>> = Vec::new();
    let ghost f = |i: int|
        level_rows(
            d@,
            roles.deep_view()[i],
            levels.deep_view(),
            platforms.deep_view(),
            sites.deep_view(),
        );
    assert(out.deep_view() =~= Seq::new(0, f).flatten());
    let mut i: usize = 0;
    while i < roles.len()
        invariant
            i <= roles.len(),
            f == (|i: int|
                level_rows(
                    d@,
                    roles.deep_view()[i],
                    levels.deep_view(),
                    platforms.deep_view(),
                    sites.deep_view(),
                )),
            out.deep_view() == Seq::new(i as nat, f).flatten(),
        decreases roles.len() - i,
    {
        push_level_rows(&mut out, d, &roles[i], levels, platforms, sites);
        proof {
            assert(roles.deep_view()[i as int] == roles@[i as int]@);
            lemma_flatten_next(i as nat, f);
        }
        i = i + 1;
    }
    out
}

/// The texts of roles, platforms or sites.
pub open spec fn texts_of(vs: Seq<Option<Seq<char>>>) -> Seq<Seq<char>> {
    vs.map_values(|v: Option<Seq<char>>| name_or_any(v))
}

/// The texts of levels.
pub open spec fn level_texts_of(vs: Seq<Option<(Option<Seq<char>>, Seq<Seq<char>>)>>) -> Seq<
    Seq<char>,
> {
    vs.map_values(|v: Option<(Option<Seq<char>>, Seq<Seq<char>>)>| level_view_text(v))
}

/// The texts of the roles.
fn role_texts(v: &Vec<Role>) -> (r: Vec<String>)
    ensures
        r.deep_view() == texts_of(v@.map_values(|x: Role| x@)),
{
    let mut out: Vec<String> = Vec::new();
    let mut i: usize = 0;
    while i < v.len()
        invariant
            i <= v.len(),
            out.len() == i,
            forall|j: int| 0 <= j < i ==> #[trigger] out@[j]@ == name_or_any(v@[j]@),
        decreases v.len() - i,
    {
        out.push(v[i].to_string());
        i = i + 1;
    }
    assert(out.deep_view() =~= texts_of(v@.map_values(|x: Role| x@)));
    out
}

/// The texts of the platforms.
fn platform_texts(v: &Vec<Platform>) -> (r: Vec<String>)
    ensures
        r.deep_view() == texts_of(v@.map_values(|x: Platform| x@)),
{
    let mut out: Vec<String> = Vec::new();
    let mut i: usize = 0;
    while i < v.len()
        invariant
            i <= v.len(),
            out.len() == i,
            forall|j: int| 0 <= j < i ==> #[trigger] out@[j]@ == name_or_any(v@[j]@),
        decreases v.len() - i,
    {
        out.push(v[i].to_string());
        i = i + 1;
    }
    assert(out.deep_view() =~= texts_of(v@.map_values(|x: Platform| x@)));
    out
}

/// The texts of the sites.
fn site_texts(v: &Vec<Site>) -> (r: Vec<String>)
    ensures
        r.deep_view() == texts_of(v@.map_values(|x: Site| x@)),
{
    let mut out: Vec<String> = Vec::new();
    let mut i: usize = 0;
    while i < v.len()
        invariant
            i <= v.len(),
            out.len() == i,
            forall|j: int| 0 <= j < i ==> #[trigger] out@[j]@ == name_or_any(v@[j]@),
        decreases v.len() - i,
    {
        out.push(v[i].to_string());
        i = i + 1;
    }
    assert(out.deep_view() =~= texts_of(v@.map_values(|x: Site| x@)));
    out
}

/// The texts of the levels.
fn level_texts(v: &Vec<Level>) -> (r: Vec<String>)
    ensures
        r.deep_view() == level_texts_of(v@.map_values(|x: Level| x@)),
{
    let mut out: Vec<String> = Vec::new();
    let mut i: usize = 0;
    while i < v.len()
        invariant
            i <= v.len(),
            out.len() == i,
            forall|j: int| 0 <= j < i ==> #[trigger] out@[j]@ == level_view_text(v@[j]@),
        decreases v.len() - i,
    {
        out.push(v[i].to_string());
        i = i + 1;
    }
    assert(out.deep_view() =~= level_texts_of(v@.map_values(|x: Level| x@)));
    out
}

/// Whether `v` holds a role the same as `x`.
fn has_role(v: &Vec<Role>, x: &Role) -> (r: bool)
    ensures
        r == v@.map_values(|y: Role| y@).contains(x@),
{
    let mut i: usize = 0;
    while i < v.len()
        invariant
            i <= v.len(),
            forall|j: int| 0 <= j < i ==> #[trigger] v@[j]@ != x@,
        decreases v.len() - i,
    {
        if v[i].same_as(x) {
            assert(v@.map_values(|y: Role| y@)[i as int] == x@);
            return true;
        }
        i = i + 1;
    }
    false
}

/// Whether `v` holds a platform the same as `x`.
fn has_platform(v: &Vec<Platform>, x: &Platform) -> (r: bool)
    ensures
        r == v@.map_values(|y: Platform| y@).contains(x@),
{
    let mut i: usize = 0;
    while i < v.len()
        invariant
            i <= v.len(),
            forall|j: int| 0 <= j < i ==> #[trigger] v@[j]@ != x@,
        decreases v.len() - i,
    {
        if v[i].same_as(x) {
            assert(v@.map_values(|y: Platform| y@)[i as int] == x@);
            return true;
        }
        i = i + 1;
    }
    false
}

/// Whether `v` holds a site the same as `x`.
fn has_site(v: &Vec<Site>, x: &Site) -> (r: bool)
    ensures
        r == v@.map_values(|y: Site| y@).contains(x@),
{
    let mut i: usize = 0;
    while i < v.len()
        invariant
            i <= v.len(),
            forall|j: int| 0 <= j < i ==> #[trigger] v@[j]@ != x@,
        decreases v.len() - i,
    {
        if v[i].same_as(x) {
            assert(v@.map_values(|y: Site| y@)[i as int] == x@);
            return true;
        }
        i = i + 1;
    }
    false
}

/// Whether `v` holds a level the same as `x`.
fn has_level(v: &Vec<Level>, x: &Level) -> (r: bool)
    ensures
        r == v@.map_values(|y: Level| y@).contains(x@),
{
    let mut i: usize = 0;
    while i < v.len()
        invariant
            i <= v.len(),
            forall|j: int| 0 <= j < i ==> #[trigger] v@[j]@ != x@,
        decreases v.len() - i,
    {
        if v[i].same_as(x) {
            assert(v@.map_values(|y: Level| y@)[i as int] == x@);
            return true;
        }
        i = i + 1;
    }
    false
}

impl AddVersionPins {
    /// The number of pins the last statements added.
    pub closed spec fn count(&self) -> u64 {
        self.result_cnt
    }

    /// The package pinned.
    pub closed spec fn package_v(&self) -> Seq<char> {
        self.package@
    }

    /// The version pinned.
    pub closed spec fn version_v(&self) -> Seq<char> {
        self.version@
    }

    /// The levels given so far, each once.
    pub closed spec fn levels_v(&self) -> Seq<Option<(Option<Seq<char>>, Seq<Seq<char>>)>> {
        self.levels@.map_values(|x: Level| x@)
    }

    /// The roles given so far, each once.
    pub closed spec fn roles_v(&self) -> Seq<Option<Seq<char>>> {
        self.roles@.map_values(|x: Role| x@)
    }

    /// The platforms given so far, each once.
    pub closed spec fn platforms_v(&self) -> Seq<Option<Seq<char>>> {
        self.platforms@.map_values(|x: Platform| x@)
    }

    /// The sites given so far, each once.
    pub closed spec fn sites_v(&self) -> Seq<Option<Seq<char>>> {
        self.sites@.map_values(|x: Site| x@)
    }

    /// The same coordinates and counts, whatever else changed.
    pub open spec fn same_pins(&self, other: &Self) -> bool {
        &&& self.package_v() == other.package_v()
        &&& self.version_v() == other.version_v()
        &&& self.levels_v() == other.levels_v()
        &&& self.roles_v() == other.roles_v()
        &&& self.platforms_v() == other.platforms_v()
        &&& self.sites_v() == other.sites_v()
        &&& self.count() == other.count()
    }

    /// A builder pinning `package` at `version`, with no coordinates yet.
    pub fn new(package: String, version: String) -> (r: Self)
        ensures
            r.package_v() == package@,
            r.version_v() == version@,
            r.levels_v().len() == 0,
            r.roles_v().len() == 0,
            r.platforms_v().len() == 0,
            r.sites_v().len() == 0,
            r.count() == 0,
    {
        Self {
            package,
            version,
            roles: Vec::new(),
            levels: Vec::new(),
            platforms: Vec::new(),
            sites: Vec::new(),
            result_cnt: 0,
        }
    }

    /// Add the role named `role`, or any role where the name is not a
    /// role, unless it is there already.
    fn add_role(&mut self, role: &str)
        ensures
            final(self).roles_v() == with_item(old(self).roles_v(), role_of(role@)),
            final(self).package_v() == old(self).package_v(),
            final(self).version_v() == old(self).version_v(),
            final(self).levels_v() == old(self).levels_v(),
            final(self).platforms_v() == old(self).platforms_v(),
            final(self).sites_v() == old(self).sites_v(),
            final(self).count() == old(self).count(),
    {
        let irole = match Role::from_str(role) {
            Ok(r) => r,
            Err(_) => Role::Any,
        };
        if !has_role(&self.roles, &irole) {
            self.roles.push(irole);
            assert(self.roles@.map_values(|x: Role| x@) =~= old(self).roles_v().push(irole@));
        }
    }

    /// Add the platform named `platform`, or any platform where the name is
    /// not a platform, unless it is there already.
    fn add_platform(&mut self, platform: &str)
        ensures
            final(self).platforms_v() == with_item(old(self).platforms_v(), platform_of(platform@)),
            final(self).package_v() == old(self).package_v(),
            final(self).version_v() == old(self).version_v(),
            final(self).levels_v() == old(self).levels_v(),
            final(self).roles_v() == old(self).roles_v(),
            final(self).sites_v() == old(self).sites_v(),
            final(self).count() == old(self).count(),
    {
        let iplatform = match Platform::from_str(platform) {
            Ok(p) => p,
            Err(_) => Platform::Any,
        };
        if !has_platform(&self.platforms, &iplatform) {
            self.platforms.push(iplatform);
            assert(self.platforms@.map_values(|x: Platform| x@) =~= old(self).platforms_v().push(
                iplatform@,
            ));
        }
    }

    /// Add the site named `site`, or any site where the name is not a
    /// site, unless it is there already.
    fn add_site(&mut self, site: &str)
        ensures
            final(self).sites_v() == with_item(old(self).sites_v(), site_of(site@)),
            final(self).package_v() == old(self).package_v(),
            final(self).version_v() == old(self).version_v(),
            final(self).levels_v() == old(self).levels_v(),
            final(self).roles_v() == old(self).roles_v(),
            final(self).platforms_v() == old(self).platforms_v(),
            final(self).count() == old(self).count(),
    {
        let isite = match Site::from_str(site) {
            Ok(s) => s,
            Err(_) => Site::Any,
        };
        if !has_site(&self.sites, &isite) {
            self.sites.push(isite);
            assert(self.sites@.map_values(|x: Site| x@) =~= old(self).sites_v().push(isite@));
        }
    }

    /// Add `level`, unless it is there already.
    fn add_level(&mut self, level: Level)
        ensures
            final(self).levels_v() == with_item(old(self).levels_v(), level@),
            final(self).package_v() == old(self).package_v(),
            final(self).version_v() == old(self).version_v(),
            final(self).roles_v() == old(self).roles_v(),
            final(self).platforms_v() == old(self).platforms_v(),
            final(self).sites_v() == old(self).sites_v(),
            final(self).count() == old(self).count(),
    {
        if !has_level(&self.levels, &level) {
            let ghost lv = level@;
            self.levels.push(level);
            assert(self.levels@.map_values(|x: Level| x@) =~= old(self).levels_v().push(lv));
        }
    }
}

impl AddVersionPins {
    /// Add the role named `role`; a name that is not a role adds any
    /// role. A role given before is not added again.
    pub fn role(self, role: &str) -> (r: Self)
        ensures
            r.roles_v() == with_item(self.roles_v(), role_of(role@)),
            r.levels_v() == self.levels_v(),
            r.platforms_v() == self.platforms_v(),
            r.sites_v() == self.sites_v(),
            r.package_v() == self.package_v(),
            r.version_v() == self.version_v(),
            r.count() == self.count(),
    {
        let mut s = self;
        s.add_role(role);
        s
    }

    /// Add the roles named in `roles`, in order, emptying it.
    pub fn roles(self, roles: &mut Vec<String>) -> (r: Self)
        ensures
            r.roles_v() == with_items(
                self.roles_v(),
                old(roles).deep_view().map_values(|n: Seq<char>| role_of(n)),
            ),
            final(roles)@.len() == 0,
            r.levels_v() == self.levels_v(),
            r.platforms_v() == self.platforms_v(),
            r.sites_v() == self.sites_v(),
            r.package_v() == self.package_v(),
            r.version_v() == self.version_v(),
            r.count() == self.count(),
    {
        let ghost names = roles.deep_view();
        let ghost start = self;
        let mut s = self;
        let mut i: usize = 0;
        while i < roles.len()
            invariant
                i <= roles.len(),
                roles.deep_view() == names,
                s.roles_v() == with_items(
                    start.roles_v(),
                    names.take(i as int).map_values(|n: Seq<char>| role_of(n)),
                ),
                s.levels_v() == start.levels_v(),
                s.platforms_v() == start.platforms_v(),
                s.sites_v() == start.sites_v(),
                s.package_v() == start.package_v(),
                s.version_v() == start.version_v(),
                s.count() == start.count(),
            decreases roles.len() - i,
        {
            s.add_role(roles[i].as_str());
            proof {
                let xs = names.take(i as int + 1).map_values(|n: Seq<char>| role_of(n));
                assert(xs.drop_last() =~= names.take(i as int).map_values(|n: Seq<char>| role_of(n)));
                assert(xs.last() == role_of(roles@[i as int]@));
            }
            i = i + 1;
        }
        assert(names.take(roles.len() as int) =~= names);
        roles.clear();
        s
    }

    /// Add the platform named `platform`; a name that is not a platform adds any
    /// platform. A platform given before is not added again.
    pub fn platform(self, platform: &str) -> (r: Self)
        ensures
            r.platforms_v() == with_item(self.platforms_v(), platform_of(platform@)),
            r.levels_v() == self.levels_v(),
            r.roles_v() == self.roles_v(),
            r.sites_v() == self.sites_v(),
            r.package_v() == self.package_v(),
            r.version_v() == self.version_v(),
            r.count() == self.count(),
    {
        let mut s = self;
        s.add_platform(platform);
        s
    }

    /// Add the platforms named in `platforms`, in order, emptying it.
    pub fn platforms(self, platforms: &mut Vec<String>) -> (r: Self)
        ensures
            r.platforms_v() == with_items(
                self.platforms_v(),
                old(platforms).deep_view().map_values(|n: Seq<char>| platform_of(n)),
            ),
            final(platforms)@.len() == 0,
            r.levels_v() == self.levels_v(),
            r.roles_v() == self.roles_v(),
            r.sites_v() == self.sites_v(),
            r.package_v() == self.package_v(),
            r.version_v() == self.version_v(),
            r.count() == self.count(),
    {
        let ghost names = platforms.deep_view();
        let ghost start = self;
        let mut s = self;
        let mut i: usize = 0;
        while i < platforms.len()
            invariant
                i <= platforms.len(),
                platforms.deep_view() == names,
                s.platforms_v() == with_items(
                    start.platforms_v(),
                    names.take(i as int).map_values(|n: Seq<char>| platform_of(n)),
                ),
                s.levels_v() == start.levels_v(),
                s.roles_v() == start.roles_v(),
                s.sites_v() == start.sites_v(),
                s.package_v() == start.package_v(),
                s.version_v() == start.version_v(),
                s.count() == start.count(),
            decreases platforms.len() - i,
        {
            s.add_platform(platforms[i].as_str());
            proof {
                let xs = names.take(i as int + 1).map_values(|n: Seq<char>| platform_of(n));
                assert(xs.drop_last() =~= names.take(i as int).map_values(|n: Seq<char>| platform_of(n)));
                assert(xs.last() == platform_of(platforms@[i as int]@));
            }
            i = i + 1;
        }
        assert(names.take(platforms.len() as int) =~= names);
        platforms.clear();
        s
    }

    /// Add the site named `site`; a name that is not a site adds any
    /// site. A site given before is not added again.
    pub fn site(self, site: &str) -> (r: Self)
        ensures
            r.sites_v() == with_item(self.sites_v(), site_of(site@)),
            r.levels_v() == self.levels_v(),
            r.roles_v() == self.roles_v(),
            r.platforms_v() == self.platforms_v(),
            r.package_v() == self.package_v(),
            r.version_v() == self.version_v(),
            r.count() == self.count(),
    {
        let mut s = self;
        s.add_site(site);
        s
    }

    /// Add the sites named in `sites`, in order, emptying it.
    pub fn sites(self, sites: &mut Vec<String>) -> (r: Self)
        ensures
            r.sites_v() == with_items(
                self.sites_v(),
                old(sites).deep_view().map_values(|n: Seq<char>| site_of(n)),
            ),
            final(sites)@.len() == 0,
            r.levels_v() == self.levels_v(),
            r.roles_v() == self.roles_v(),
            r.platforms_v() == self.platforms_v(),
            r.package_v() == self.package_v(),
            r.version_v() == self.version_v(),
            r.count() == self.count(),
    {
        let ghost names = sites.deep_view();
        let ghost start = self;
        let mut s = self;
        let mut i: usize = 0;
        while i < sites.len()
            invariant
                i <= sites.len(),
                sites.deep_view() == names,
                s.sites_v() == with_items(
                    start.sites_v(),
                    names.take(i as int).map_values(|n: Seq<char>| site_of(n)),
                ),
                s.levels_v() == start.levels_v(),
                s.roles_v() == start.roles_v(),
                s.platforms_v() == start.platforms_v(),
                s.package_v() == start.package_v(),
                s.version_v() == start.version_v(),
                s.count() == start.count(),
            decreases sites.len() - i,
        {
            s.add_site(sites[i].as_str());
            proof {
                let xs = names.take(i as int + 1).map_values(|n: Seq<char>| site_of(n));
                assert(xs.drop_last() =~= names.take(i as int).map_values(|n: Seq<char>| site_of(n)));
                assert(xs.last() == site_of(sites@[i as int]@));
            }
            i = i + 1;
        }
        assert(names.take(sites.len() as int) =~= names);
        sites.clear();
        s
    }

    /// Add the level named `level`, as levelspec read it (`parsed`); a name
    /// that is not a level adds the facility. A level given before is not
    /// added again.
    pub fn level(self, level: &str, parsed: Option<LevelSpec>) -> (r: Self)
        ensures
            is_ascii_text(level@) ==> (names_facility(level@) <==> ascii_lower(level@) == "facility"@),
            r.levels_v() == with_item(
                self.levels_v(),
                (if !names_facility(level@) && parsed is Some {
                    Level::LevelSpec(parsed.unwrap())
                } else {
                    Level::Facility
                })@,
            ),
            r.roles_v() == self.roles_v(),
            r.platforms_v() == self.platforms_v(),
            r.sites_v() == self.sites_v(),
            r.package_v() == self.package_v(),
            r.version_v() == self.version_v(),
            r.count() == self.count(),
    {
        let lvl = match Level::try_from_str(level, parsed) {
            Ok(l) => l,
            Err(_) => Level::Facility,
        };
        let mut s = self;
        s.add_level(lvl);
        s
    }

    /// Add the levels of `levels`, in order, emptying it.
    pub fn levels(self, levels: &mut Vec<Level>) -> (r: Self)
        ensures
            r.levels_v() == with_items(self.levels_v(), old(levels)@.map_values(|l: Level| l@)),
            final(levels)@.len() == 0,
            r.roles_v() == self.roles_v(),
            r.platforms_v() == self.platforms_v(),
            r.sites_v() == self.sites_v(),
            r.package_v() == self.package_v(),
            r.version_v() == self.version_v(),
            r.count() == self.count(),
    {
        let ghost items = levels@.map_values(|l: Level| l@);
        let n = levels.len();
        let ghost start = self;
        let mut s = self;
        let mut i: usize = 0;
        while levels.len() > 0
            invariant
                i <= n,
                levels@.len() == n - i,
                levels@.map_values(|l: Level| l@) == items.skip(i as int),
                items.len() == n,
                s.levels_v() == with_items(start.levels_v(), items.take(i as int)),
                s.roles_v() == start.roles_v(),
                s.platforms_v() == start.platforms_v(),
                s.sites_v() == start.sites_v(),
                s.package_v() == start.package_v(),
                s.version_v() == start.version_v(),
                s.count() == start.count(),
            decreases levels.len(),
        {
            let ghost before = levels@;
            let lvl = levels.remove(0);
            proof {
                assert(lvl@ == items[i as int]) by {
                    assert(before.map_values(|l: Level| l@)[0] == items.skip(i as int)[0]);
                }
                assert forall|k: int| 0 <= k < levels@.len() implies #[trigger] levels@[k]@
                    == items.skip(i as int + 1)[k] by {
                    assert(levels@[k] == before[k + 1]);
                    assert(before.map_values(|l: Level| l@)[k + 1] == items.skip(i as int)[k + 1]);
                }
                assert(levels@.map_values(|l: Level| l@) =~= items.skip(i as int + 1));
                assert(items.take(i as int + 1).drop_last() =~= items.take(i as int));
                assert(items.take(i as int + 1).last() == items[i as int]);
            }
            s.add_level(lvl);
            i = i + 1;
        }
        assert(items.take(n as int) =~= items);
        s
    }
}

impl AddVersionPins {
    /// Forget the number of pins added.
    pub fn reset_result_cnt(&mut self)
        ensures
            final(self).count() == 0,
            final(self).package_v() == old(self).package_v(),
            final(self).version_v() == old(self).version_v(),
            final(self).levels_v() == old(self).levels_v(),
            final(self).roles_v() == old(self).roles_v(),
            final(self).platforms_v() == old(self).platforms_v(),
            final(self).sites_v() == old(self).sites_v(),
    {
        self.result_cnt = 0;
    }

    /// The number of pins the last statements added.
    pub fn get_result_cnt(&self) -> (r: u64)
        ensures
            r == self.count(),
    {
        self.result_cnt
    }

    /// The builder after its statements added `cnt` pins.
    pub fn record_result(self, cnt: u64) -> (r: Self)
        ensures
            r.count() == cnt,
            r.package_v() == self.package_v(),
            r.version_v() == self.version_v(),
            r.levels_v() == self.levels_v(),
            r.roles_v() == self.roles_v(),
            r.platforms_v() == self.platforms_v(),
            r.sites_v() == self.sites_v(),
    {
        let mut s = self;
        s.result_cnt = cnt;
        s
    }

    /// The statement that pins a distribution at one combination; its
    /// parameters are those of a row of `prepare`.
    pub fn insert_statement() -> (r: &'static str)
        ensures
            r@ == "SELECT * from INSERT_VERSIONPIN($1, level_n => $2, site_n => $3, role_n => $4, platform_n => $5)"@,
    {
        "SELECT * from INSERT_VERSIONPIN($1, level_n => $2, site_n => $3, role_n => $4, platform_n => $5)"
    }

    /// The parameters of every pin to add: the distribution
    /// (`package-version`), then level, site, role and platform, for each
    /// combination of the distinct coordinates, role by role, then level,
    /// platform and site. Fails, in this order, when no platform, role,
    /// level or site was given.
    pub fn prepare(&self) -> (r: Result<Vec<Vec<String>>, AddVersionPinsError>)
        ensures
            r matches Err(AddVersionPinsError::NoPlatformsError) <==> self.platforms_v().len()
                == 0,
            r matches Err(AddVersionPinsError::NoRolesError) <==> self.platforms_v().len() > 0
                && self.roles_v().len() == 0,
            r matches Err(AddVersionPinsError::NoLevelsError) <==> self.platforms_v().len() > 0
                && self.roles_v().len() > 0 && self.levels_v().len() == 0,
            r matches Err(AddVersionPinsError::NoSitesError) <==> self.platforms_v().len() > 0
                && self.roles_v().len() > 0 && self.levels_v().len() > 0 && self.sites_v().len()
                == 0,
            !(r matches Err(AddVersionPinsError::TokioPostgresError { .. })),
            !(r matches Err(AddVersionPinsError::InvalidPlatform { .. })),
            r matches Ok(rows) ==> rows.deep_view() == pin_rows(
                self.package_v() + "-"@ + self.version_v(),
                first_occurrences(texts_of(self.roles_v())),
                first_occurrences(level_texts_of(self.levels_v())),
                first_occurrences(texts_of(self.platforms_v())),
                first_occurrences(texts_of(self.sites_v())),
            ),
    {
        let platforms = unique_names(&platform_texts(&self.platforms));
        let levels = unique_names(&level_texts(&self.levels));
        let roles = unique_names(&role_texts(&self.roles));
        let sites = unique_names(&site_texts(&self.sites));
        proof {
            lemma_first_occurrences_empty(texts_of(self.platforms_v()));
            lemma_first_occurrences_empty(texts_of(self.roles_v()));
            lemma_first_occurrences_empty(level_texts_of(self.levels_v()));
            lemma_first_occurrences_empty(texts_of(self.sites_v()));
            assert(platforms.deep_view().len() == platforms@.len());
            assert(roles.deep_view().len() == roles@.len());
            assert(levels.deep_view().len() == levels@.len());
            assert(sites.deep_view().len() == sites@.len());
        }
        if platforms.len() == 0 {
            return Err(AddVersionPinsError::NoPlatformsError);
        }
        if roles.len() == 0 {
            return Err(AddVersionPinsError::NoRolesError);
        }
        if levels.len() == 0 {
            return Err(AddVersionPinsError::NoLevelsError);
        }
        if sites.len() == 0 {
            return Err(AddVersionPinsError::NoSitesError);
        }
        let mut dist = self.package.clone();
        dist.append("-");
        dist.append(self.version.as_str());
        Ok(all_pin_rows(&dist, &roles, &levels, &platforms, &sites))
    }
}

} // verus!
