//! The aggregator: one pass puts the in-process records first, then each
//! external target's records in target order, and stamps the set with the
//! time of collection.
use vstd::prelude::*;

verus! {

/// The records of `groups`, one group after another, each in its own order.
pub open spec fn concat_groups<T>(groups: Seq<Vec<T>>) -> Seq<T>
    decreases groups.len(),
{
    if groups.len() == 0 {
        Seq::empty()
    } else {
        concat_groups(groups.drop_last()) + groups.last()@
    }
}

/// Puts `first` ahead of every group of `groups`, keeping all orders.
pub fn assemble<T>(first: Vec<T>, groups: Vec<Vec<T>>) -> (r: Vec<T>)
    ensures
        r@ == first@ + concat_groups(groups@),
{
    let ghost all = groups@;
    let mut rest = groups;
    let mut r = first;
    let ghost done: int = 0;
    while rest.len() > 0
        invariant
            0 <= done <= all.len(),
            rest@ == all.subrange(done, all.len() as int),
            r@ == first@ + concat_groups(all.subrange(0, done)),
        decreases rest.len(),
    {
        let mut group = rest.remove(0);
        proof {
            assert(group == all[done]);
            assert(all.subrange(0, done + 1).drop_last() == all.subrange(0, done));
        }
        let ghost g = group@;
        r.append(&mut group);
        proof {
            assert(r@ =~= first@ + concat_groups(all.subrange(0, done + 1)));
            done = done + 1;
            assert(rest@ =~= all.subrange(done, all.len() as int));
        }
    }
    proof {
        assert(all.subrange(0, done) == all);
    }
    r
}

/// The records of one aggregation pass and when they were collected.
pub struct ResultSet<T> {
    pub records: Vec<T>,
    pub collected_at: String,
}

/// Relies on chrono::Utc::now, read from the system clock, rendered by
/// chrono::DateTime::to_rfc3339 as an RFC 3339 (ISO 8601) string. Nothing can
/// be promised of the time read.
#[verifier::external_body]
fn timestamp_now() -> String {
    chrono::Utc::now().to_rfc3339()
}

/// Assembles one result set: the in-process records, then each external
/// target's records in target order, stamped with the current time.
pub fn collect<T>(in_process: Vec<T>, external: Vec<Vec<T>>) -> (r: ResultSet<T>)
    ensures
        r.records@ == in_process@ + concat_groups(external@),
{
    let records = assemble(in_process, external);
    ResultSet { records, collected_at: timestamp_now() }
}

} // verus!
