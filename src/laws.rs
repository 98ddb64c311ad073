use vstd::prelude::*;
use crate::helado::{Helado, json_list};
use crate::request::{id_field, i32_of};
use crate::service::{Route, route_of, Command, Step, Answer, Outcome, dispatch_of, answer_of};
use crate::response::{Status, status_of, body_of};
use crate::store::{Table, lists, applied, reports};

verus! {

/// A record created from a well-formed body shows up, with its name and price,
/// in every listing of the table that follows; and reading it back under the
/// identifier the store gave it finds the same name and price.
pub proof fn created_record_is_listed_and_found(
    t: Table,
    create: Seq<char>,
    list: Seq<char>,
    list_body: Option<Helado>,
    h: Helado,
    fresh: i32,
    hs: Vec<Helado>,
    read: Seq<char>,
    read_body: Option<Helado>,
    fetched: Outcome,
)
    requires
        route_of(create) == Route::Create,
        route_of(list) == Route::ReadAll,
        !t.contains_key(fresh),
        lists(applied(t, Command::Insert { sabor: h.sabor, precio: h.precio }, fresh), hs@),
        route_of(read) == Route::ReadOne,
        i32_of(id_field(read)) == Some(fresh),
        reports(
            applied(t, Command::Insert { sabor: h.sabor, precio: h.precio }, fresh),
            Command::SelectOne { id: fresh },
            fetched,
        ),
    ensures
        dispatch_of(create, Some(h)) == Step::Run(
            Command::Insert { sabor: h.sabor, precio: h.precio },
        ),
        answer_of(Command::Insert { sabor: h.sabor, precio: h.precio }, Outcome::Executed(1))
            == Answer::Created,
        dispatch_of(list, list_body) == Step::Run(Command::SelectAll),
        answer_of(Command::SelectAll, Outcome::Listed(hs)) == Answer::All(hs),
        exists|i: int|
            0 <= i < hs.len() && (#[trigger] hs@[i]).sabor@ == h.sabor@ && hs@[i].precio@
                == h.precio@,
        dispatch_of(read, read_body) == Step::Run(Command::SelectOne { id: fresh }),
        answer_of(Command::SelectOne { id: fresh }, fetched) matches Answer::Found(g) && g.id
            == Some(fresh) && g.sabor@ == h.sabor@ && g.precio@ == h.precio@,
{
    let t1 = applied(t, Command::Insert { sabor: h.sabor, precio: h.precio }, fresh);
    assert(t1.contains_key(fresh));
    let i = choose|i: int| 0 <= i < hs@.len() && (#[trigger] hs@[i]).id == Some(fresh);
    assert(t1[fresh] == (h.sabor@, h.precio@));
    assert(hs@[i].sabor@ == h.sabor@ && hs@[i].precio@ == h.precio@);
}

/// Reading a well-formed identifier that no row has answers not-found, never
/// an error.
pub proof fn read_of_missing_id_is_not_found(
    t: Table,
    request: Seq<char>,
    body: Option<Helado>,
    id: i32,
    o: Outcome,
)
    requires
        route_of(request) == Route::ReadOne,
        i32_of(id_field(request)) == Some(id),
        !t.contains_key(id),
        reports(t, Command::SelectOne { id }, o),
    ensures
        dispatch_of(request, body) == Step::Run(Command::SelectOne { id }),
        answer_of(Command::SelectOne { id }, o) == Answer::NoSuchFlavor,
        status_of(answer_of(Command::SelectOne { id }, o)) == Status::NotFound,
{
}

/// Updating an identifier that no row has still answers success, and leaves
/// the table as it was.
pub proof fn update_of_missing_id_succeeds(
    t: Table,
    request: Seq<char>,
    h: Helado,
    id: i32,
    o: Outcome,
    fresh: i32,
)
    requires
        route_of(request) == Route::Update,
        i32_of(id_field(request)) == Some(id),
        !t.contains_key(id),
        reports(t, Command::Update { id, sabor: h.sabor, precio: h.precio }, o),
    ensures
        dispatch_of(request, Some(h)) == Step::Run(
            Command::Update { id, sabor: h.sabor, precio: h.precio },
        ),
        answer_of(Command::Update { id, sabor: h.sabor, precio: h.precio }, o) == Answer::Updated,
        status_of(answer_of(Command::Update { id, sabor: h.sabor, precio: h.precio }, o))
            == Status::Success,
        applied(t, Command::Update { id, sabor: h.sabor, precio: h.precio }, fresh) == t,
{
}

/// Deleting an identifier that no row has answers not-found.
pub proof fn delete_of_missing_id_is_not_found(
    t: Table,
    request: Seq<char>,
    body: Option<Helado>,
    id: i32,
    o: Outcome,
)
    requires
        route_of(request) == Route::Delete,
        i32_of(id_field(request)) == Some(id),
        !t.contains_key(id),
        reports(t, Command::Remove { id }, o),
    ensures
        dispatch_of(request, body) == Step::Run(Command::Remove { id }),
        answer_of(Command::Remove { id }, o) == Answer::NothingDeleted,
        status_of(answer_of(Command::Remove { id }, o)) == Status::NotFound,
{
}

/// Deleting an identifier that a row has answers success, and no later listing
/// holds a record under it.
pub proof fn delete_of_present_id_removes_it(
    t: Table,
    request: Seq<char>,
    body: Option<Helado>,
    id: i32,
    o: Outcome,
    fresh: i32,
    hs: Seq<Helado>,
)
    requires
        route_of(request) == Route::Delete,
        i32_of(id_field(request)) == Some(id),
        t.contains_key(id),
        reports(t, Command::Remove { id }, o),
        lists(applied(t, Command::Remove { id }, fresh), hs),
    ensures
        dispatch_of(request, body) == Step::Run(Command::Remove { id }),
        answer_of(Command::Remove { id }, o) == Answer::Deleted,
        status_of(answer_of(Command::Remove { id }, o)) == Status::Success,
        forall|i: int| 0 <= i < hs.len() ==> (#[trigger] hs[i]).id != Some(id),
{
    assert forall|i: int| 0 <= i < hs.len() implies (#[trigger] hs[i]).id != Some(id) by {
        assert(!t.remove(id).contains_key(id));
    }
}

/// A create or an update whose body is not a record answers an internal error.
pub proof fn malformed_body_is_internal_error(request: Seq<char>)
    requires
        route_of(request) == Route::Create || route_of(request) == Route::Update,
    ensures
        dispatch_of(request, None) == Step::Reply(Answer::Error),
        status_of(Answer::Error) == Status::InternalError,
{
}

/// A read-one, update or delete whose path identifier is not an `i32` answers
/// an internal error, whatever the body.
pub proof fn bad_identifier_is_internal_error(request: Seq<char>, body: Option<Helado>)
    requires
        route_of(request) == Route::ReadOne || route_of(request) == Route::Update || route_of(
            request,
        ) == Route::Delete,
        i32_of(id_field(request)) is None,
    ensures
        dispatch_of(request, body) == Step::Reply(Answer::Error),
{
}

/// Listing an empty table answers success with an empty JSON array.
pub proof fn empty_table_lists_nothing(request: Seq<char>, body: Option<Helado>, o: Outcome)
    requires
        route_of(request) == Route::ReadAll,
        reports(Map::empty(), Command::SelectAll, o),
    ensures
        dispatch_of(request, body) == Step::Run(Command::SelectAll),
        answer_of(Command::SelectAll, o) matches Answer::All(hs) && hs@.len() == 0,
        status_of(answer_of(Command::SelectAll, o)) == Status::Success,
        body_of(answer_of(Command::SelectAll, o)) == "[]"@,
{
    let hs = o->Listed_0;
    if hs@.len() > 0 {
        let h = hs@[0];
        assert(Map::<i32, (Seq<char>, Seq<char>)>::empty().contains_key(h.id->0));
    }
    reveal_strlit("[]");
    reveal_strlit("[");
    reveal_strlit("]");
    assert(json_list(hs@) =~= "[]"@);
}

} // verus!
