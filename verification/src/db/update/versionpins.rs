//! Change the distribution or the coordinates of version pins.
use crate::text::decimal;
use crate::types::IdType;
use vstd::prelude::*;

verus! {

/// Why version pins could not be changed.
#[allow(inconsistent_fields)]
#[derive(Debug)]
pub enum UpdateVersionPinsError {
    /// The database refused a statement.
    TokioPostgresError { msg: &'static str, source: tokio_postgres::Error },
    /// No change was given.
    NoUpdatesError,
}

/// A change of one version pin: its new distribution, its new coordinates,
/// or both.
#[derive(Debug, PartialEq, Eq, PartialOrd, Ord, Clone, Copy)]
pub struct VersionPinChange {
    pub versionpin_id: IdType,
    pub distribution_id: Option<IdType>,
    pub pkgcoord_id: Option<IdType>,
}

impl VersionPinChange {
    /// The change of `versionpin_id` to the given distribution and
    /// coordinates, where given.
    pub fn new(
        versionpin_id: IdType,
        distribution_id: Option<IdType>,
        pkgcoord_id: Option<IdType>,
    ) -> (r: Self)
        ensures
            r == (VersionPinChange { versionpin_id, distribution_id, pkgcoord_id }),
    {
        Self { versionpin_id, distribution_id, pkgcoord_id }
    }

    /// Whether the change changes anything.
    pub fn has_changes(&self) -> (r: bool)
        ensures
            r == (self.distribution_id is Some || self.pkgcoord_id is Some),
    {
        self.distribution_id.is_some() || self.pkgcoord_id.is_some()
    }
}

/// The UPDATE statement of a change and its parameters: the version pin,
/// then the new distribution and the new coordinates, where given. Each
/// given column is set by a `SET` clause of its own.
pub open spec fn change_statement(c: VersionPinChange) -> (Seq<char>, Seq<IdType>) {
    let with_dist = c.distribution_id is Some;
    let dist_part = if with_dist {
        "SET distribution = $"@ + decimal(2)
    } else {
        Seq::<char>::empty()
    };
    let coord_part = if c.pkgcoord_id is Some {
        (if with_dist {
            ","@
        } else {
            Seq::<char>::empty()
        }) + "SET coord = $"@ + decimal(if with_dist {
            3nat
        } else {
            2nat
        })
    } else {
        Seq::<char>::empty()
    };
    let params = seq![c.versionpin_id] + (match c.distribution_id {
        Some(d) => seq![d],
        None => Seq::<IdType>::empty(),
    }) + (match c.pkgcoord_id {
        Some(p) => seq![p],
        None => Seq::<IdType>::empty(),
    });
    ("UPDATE versionpin "@ + dist_part + coord_part + " WHERE id = $1"@, params)
}

/// The statements of the changes that change something, in order.
pub open spec fn change_statements(cs: Seq<VersionPinChange>) -> Seq<(Seq<char>, Seq<IdType>)>
    decreases cs.len(),
{
    if cs.len() == 0 {
        Seq::empty()
    } else {
        let before = change_statements(cs.drop_last());
        let c = cs.last();
        if c.distribution_id is Some || c.pkgcoord_id is Some {
            before.push(change_statement(c))
        } else {
            before
        }
    }
}

/// The statement of one change that changes something.
fn statement_of(c: &VersionPinChange) -> (r: (String, Vec<IdType>))
    ensures
        r.0@ == change_statement(*c).0,
        r.1@ == change_statement(*c).1,
{
    let mut maybe_comma = String::new();
    let mut params: Vec<IdType> = Vec::new();
    let mut line = String::from_str("UPDATE versionpin ");
    let mut pos_idx: u64 = 2;
    params.push(c.versionpin_id);
    if let Some(dist_id) = c.distribution_id {
        params.push(dist_id);
        line.append(maybe_comma.as_str());
        line.append("SET distribution = $");
        crate::text::push_decimal(&mut line, pos_idx);
        pos_idx = pos_idx + 1;
        maybe_comma.append(",");
    }
    if let Some(pkgcoord_id) = c.pkgcoord_id {
        params.push(pkgcoord_id);
        line.append(maybe_comma.as_str());
        line.append("SET coord = $");
        crate::text::push_decimal(&mut line, pos_idx);
    }
    line.append(" WHERE id = $1");
    proof {
        reveal_with_fuel(decimal, 2);
        assert(params@ =~= change_statement(*c).1);
        assert(line@ =~= change_statement(*c).0);
    }
    (line, params)
}

/// Changes version pins.
pub struct UpdateVersionPins {
    pub changes: Vec<VersionPinChange>,
    result_cnt: u64,
}

impl UpdateVersionPins {
    /// The number of version pins the last update changed.
    pub closed spec fn count(&self) -> u64 {
        self.result_cnt
    }

    /// The changes given so far.
    pub closed spec fn pending(&self) -> Seq<VersionPinChange> {
        self.changes@
    }

    /// A builder with no changes.
    pub fn new() -> (r: Self)
        ensures
            r.pending().len() == 0,
            r.count() == 0,
    {
        Self { changes: Vec::new(), result_cnt: 0 }
    }

    /// Add a change.
    pub fn change(self, update: VersionPinChange) -> (r: Self)
        ensures
            r.pending() == self.pending().push(update),
            r.count() == self.count(),
    {
        let mut s = self;
        s.changes.push(update);
        s
    }

    /// Add the change of `versionpin_id` to the given distribution and
    /// coordinates.
    pub fn change_from_components(
        self,
        versionpin_id: IdType,
        distribution_id: Option<IdType>,
        pkgcoord_id: Option<IdType>,
    ) -> (r: Self)
        ensures
            r.pending() == self.pending().push(
                VersionPinChange { versionpin_id, distribution_id, pkgcoord_id },
            ),
            r.count() == self.count(),
    {
        let change = VersionPinChange::new(versionpin_id, distribution_id, pkgcoord_id);
        let mut s = self;
        s.changes.push(change);
        s
    }

    /// Add the changes of `changes`, emptying it.
    pub fn changes(self, changes: &mut Vec<VersionPinChange>) -> (r: Self)
        ensures
            r.pending() == self.pending() + old(changes)@,
            final(changes)@.len() == 0,
            r.count() == self.count(),
    {
        let mut s = self;
        s.changes.append(changes);
        s
    }

    /// Forget the number of version pins changed.
    pub fn reset_result_cnt(&mut self)
        ensures
            final(self).count() == 0,
            final(self).pending() == old(self).pending(),
    {
        self.result_cnt = 0;
    }

    /// The number of version pins the last update changed.
    pub fn get_result_cnt(&self) -> (r: u64)
        ensures
            r == self.count(),
    {
        self.result_cnt
    }

    /// Take the changes out of the builder, and the statement and
    /// parameters of each that changes something, in order.
    pub fn take_statements(&mut self) -> (r: Vec<(String, Vec<IdType>)>)
        ensures
            final(self).pending().len() == 0,
            final(self).count() == old(self).count(),
            r@.map_values(|s: (String, Vec<IdType>)| (s.0@, s.1@)) == change_statements(
                old(self).pending(),
            ),
    {
        let mut changes: Vec<VersionPinChange> = Vec::new();
        std::mem::swap(&mut changes, &mut self.changes);
        let mut out: Vec<(String, Vec<IdType>)> = Vec::new();
        let mut i: usize = 0;
        while i < changes.len()
            invariant
                i <= changes.len(),
                out@.map_values(|s: (String, Vec<IdType>)| (s.0@, s.1@)) == change_statements(
                    changes@.take(i as int),
                ),
            decreases changes.len() - i,
        {
            let ghost before = out@.map_values(|s: (String, Vec<IdType>)| (s.0@, s.1@));
            assert(changes@.take(i as int + 1).drop_last() =~= changes@.take(i as int));
            assert(changes@.take(i as int + 1).last() == changes@[i as int]);
            if changes[i].has_changes() {
                let st = statement_of(&changes[i]);
                out.push(st);
                assert(out@.map_values(|s: (String, Vec<IdType>)| (s.0@, s.1@)) =~= before.push(
                    change_statement(changes@[i as int]),
                ));
            }
            i = i + 1;
        }
        assert(changes@.take(changes.len() as int) =~= changes@);
        out
    }
}

} // verus!
