use vstd::prelude::*;
use crate::helado::Helado;
use crate::service::{Command, Outcome};

verus! {

/// The table as the store keeps it: each identifier with its name and price.
pub type Table = Map<i32, (Seq<char>, Seq<char>)>;

/// Whether `hs` holds every row of `t` once, each under its identifier, and
/// nothing else.
pub open spec fn lists(t: Table, hs: Seq<Helado>) -> bool {
    &&& forall|i: int|
        0 <= i < hs.len() ==> {
            &&& (#[trigger] hs[i]).id is Some
            &&& t.contains_key(hs[i].id->0)
            &&& t[hs[i].id->0] == (hs[i].sabor@, hs[i].precio@)
        }
    &&& forall|i: int, j: int|
        0 <= i < hs.len() && 0 <= j < hs.len() && i != j ==> (#[trigger] hs[i]).id != (
        #[trigger] hs[j]).id
    &&& forall|k: i32| #[trigger]
        t.contains_key(k) ==> exists|i: int| 0 <= i < hs.len() && (#[trigger] hs[i]).id == Some(k)
}

/// The table after the store runs `c` on `t`; `fresh` is the identifier that
/// the store hands to an inserted row.
pub open spec fn applied(t: Table, c: Command, fresh: i32) -> Table {
    match c {
        Command::Insert { sabor, precio } => t.insert(fresh, (sabor@, precio@)),
        Command::Update { id, sabor, precio } => if t.contains_key(id) {
            t.insert(id, (sabor@, precio@))
        } else {
            t
        },
        Command::Remove { id } => t.remove(id),
        _ => t,
    }
}

/// Whether `o` is what the store reports when it runs `c` on `t`.
pub open spec fn reports(t: Table, c: Command, o: Outcome) -> bool {
    match c {
        Command::Insert { .. } => o == Outcome::Executed(1),
        Command::Update { id, .. } => o == Outcome::Executed(
            if t.contains_key(id) {
                1
            } else {
                0
            },
        ),
        Command::Remove { id } => o == Outcome::Executed(
            if t.contains_key(id) {
                1
            } else {
                0
            },
        ),
        Command::SelectOne { id } => match o {
            Outcome::Fetched(found) => match found {
                Some(h) => t.contains_key(id) && h.id == Some(id) && t[id] == (h.sabor@, h.precio@),
                None => !t.contains_key(id),
            },
            _ => false,
        },
        Command::SelectAll => match o {
            Outcome::Listed(hs) => lists(t, hs@),
            _ => false,
        },
    }
}

} // verus!
