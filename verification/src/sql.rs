//! Text of the SQL statements on the events table.

use vstd::prelude::*;
use crate::messages::EventSpec;
use crate::decimal::{decimal, decimal_string};

verus! {

/// Creates the events table where it does not exist yet.
pub const CREATE_EVENTS_TABLE: &'static str = "CREATE TABLE IF NOT EXISTS events (
        uuid VARCHAR(36) PRIMARY KEY,
        time TIMESTAMP NOT NULL DEFAULT CURRENT_TIMESTAMP,
        title VARCHAR(255) NOT NULL,
        href TEXT DEFAULT NULL,
        image_hash VARCHAR(70) DEFAULT NULL,
        desc TEXT DEFAULT NULL
        )";

/// The events of the six months before the time bound to `?1`, newest first.
pub const SELECT_RECENT_EVENTS: &'static str = "SELECT uuid, time, title, href, desc, image_hash
                FROM events
                WHERE time >= datetime(?1, '-6 months')
                AND time < ?1
                ORDER BY time DESC";

/// Inserts one event; the parameters are those of an `InsertRow`, in order.
pub const INSERT_EVENT: &'static str = "INSERT INTO events (uuid, time, title, href, image_hash, desc)
                    VALUES (?1, ?2, ?3, ?4, ?5, ?6)";

/// `list` joined with `sep` between neighbours, as `[String]::join` does.
pub open spec fn seq_join(list: Seq<Seq<char>>, sep: Seq<char>) -> Seq<char>
    decreases list.len(),
{
    if list.len() == 0 {
        seq![]
    } else if list.len() == 1 {
        list[0]
    } else {
        seq_join(list.drop_last(), sep) + sep + list.last()
    }
}

/// The character views of a list of strings.
pub open spec fn views(list: Seq<String>) -> Seq<Seq<char>> {
    list.map_values(|s: String| s@)
}

/// Joins `list` with `sep` between neighbours.
pub fn join_strings(list: &Vec<String>, sep: &str) -> (joined: String)
    ensures
        joined@ == seq_join(views(list@), sep@),
{
    let mut joined = String::new();
    let ghost all = views(list@);
    let n = list.len();
    let mut i: usize = 0;
    while i < n
        invariant
            n == list@.len(),
            i <= n,
            all == views(list@),
            joined@ == seq_join(all.take(i as int), sep@),
        decreases n - i,
    {
        assert(all.take(i + 1).drop_last() =~= all.take(i as int));
        assert(all.take(i + 1).last() == list@[i as int]@);
        if i != 0 {
            joined.append(sep);
        } else {
            assert(all.take(1) =~= seq![list@[0]@]);
        }
        joined.append(list[i].as_str());
        i = i + 1;
    }
    assert(all.take(n as int) =~= all);
    joined
}

/// The column assignments of an event update, before their placeholders:
/// title and time always, then href, description and image hash only where
/// they are not empty, in that order.
pub open spec fn update_columns(event: EventSpec) -> Seq<Seq<char>> {
    let base = seq!["title="@, "time="@];
    let with_href = if event.event_href@.len() > 0 {
        base.push("href="@)
    } else {
        base
    };
    let with_desc = if event.event_description@.len() > 0 {
        with_href.push("desc="@)
    } else {
        with_href
    };
    if event.image_hash@.len() > 0 {
        with_desc.push("image_hash="@)
    } else {
        with_desc
    }
}

/// The values bound to the assignments of `update_columns`, in the same
/// order, with `time` as the stored time.
pub open spec fn update_values(event: EventSpec, time: Seq<char>) -> Seq<Seq<char>> {
    let base = seq![event.event_title@, time];
    let with_href = if event.event_href@.len() > 0 {
        base.push(event.event_href@)
    } else {
        base
    };
    let with_desc = if event.event_description@.len() > 0 {
        with_href.push(event.event_description@)
    } else {
        with_href
    };
    if event.image_hash@.len() > 0 {
        with_desc.push(event.image_hash@)
    } else {
        with_desc
    }
}

/// Each prefix followed by its placeholder, numbered from `first` on.
pub open spec fn numbered(prefixes: Seq<Seq<char>>, first: nat) -> Seq<Seq<char>> {
    Seq::new(prefixes.len(), |i: int| prefixes[i] + "?"@ + decimal((i + first) as nat))
}

/// The statement that updates the event whose UUID is bound to `?1`; the
/// new values are bound to `?2` onwards.
pub open spec fn update_statement(event: EventSpec) -> Seq<char> {
    "UPDATE events SET "@ + seq_join(numbered(update_columns(event), 2), ", "@) + " WHERE uuid = ?1;"@
}

/// Appends to each prefix its placeholder, numbered from `first` on.
pub fn number_placeholders(prefixes: &Vec<String>, first: usize) -> (marks: Vec<String>)
    requires
        prefixes@.len() + first <= usize::MAX,
    ensures
        views(marks@) == numbered(views(prefixes@), first as nat),
{
    let mut marks: Vec<String> = Vec::new();
    let n = prefixes.len();
    let mut i: usize = 0;
    while i < n
        invariant
            n == prefixes@.len(),
            n + first <= usize::MAX,
            i <= n,
            views(marks@) == numbered(views(prefixes@).take(i as int), first as nat),
        decreases n - i,
    {
        let mut mark = prefixes[i].clone();
        mark.append("?");
        mark.append(decimal_string(i + first).as_str());
        let ghost before = marks@;
        marks.push(mark);
        assert(views(before.push(mark)) =~= views(before).push(mark@));
        assert(numbered(views(prefixes@).take(i + 1), first as nat) =~= numbered(
            views(prefixes@).take(i as int),
            first as nat,
        ).push(prefixes@[i as int]@ + "?"@ + decimal((i + first) as nat)));
        i = i + 1;
    }
    assert(views(prefixes@).take(n as int) =~= views(prefixes@));
    marks
}

fn push_text(list: &mut Vec<String>, text: &str)
    ensures
        views(final(list)@) == views(old(list)@).push(text@),
{
    let ghost before = list@;
    let owned = text.to_owned();
    list.push(owned);
    assert(views(before.push(owned)) =~= views(before).push(text@));
    assert(views(list@) =~= views(before).push(text@));
}

/// The assignments that an update of `event` sets, before their placeholders.
pub fn event_update_columns(event: &EventSpec) -> (columns: Vec<String>)
    ensures
        views(columns@) == update_columns(*event),
{
    let mut columns: Vec<String> = Vec::new();
    push_text(&mut columns, "title=");
    push_text(&mut columns, "time=");
    if !event.event_href.as_str().is_empty() {
        push_text(&mut columns, "href=");
    }
    if !event.event_description.as_str().is_empty() {
        push_text(&mut columns, "desc=");
    }
    if !event.image_hash.as_str().is_empty() {
        push_text(&mut columns, "image_hash=");
    }
    assert(views(columns@) =~= update_columns(*event));
    columns
}

/// The parameters of an update of `event` stored with `time`: its UUID for
/// `?1`, then the values of its assignments.
pub fn event_update_parameters(event: &EventSpec, time: String) -> (params: Vec<String>)
    ensures
        views(params@) == seq![event.event_uuid@] + update_values(*event, time@),
        params@.len() == update_columns(*event).len() + 1,
        params@[0]@ == event.event_uuid@,
        forall|k: int|
            0 <= k < update_columns(*event).len() ==> #[trigger] params@[k + 1]@ == column_value(
                *event,
                time@,
                update_columns(*event)[k],
            ),
{
    proof {
        lemma_update_values_match_columns(*event, time@);
    }
    let mut params: Vec<String> = Vec::new();
    push_text(&mut params, event.event_uuid.as_str());
    push_text(&mut params, event.event_title.as_str());
    push_text(&mut params, time.as_str());
    if !event.event_href.as_str().is_empty() {
        push_text(&mut params, event.event_href.as_str());
    }
    if !event.event_description.as_str().is_empty() {
        push_text(&mut params, event.event_description.as_str());
    }
    if !event.image_hash.as_str().is_empty() {
        push_text(&mut params, event.image_hash.as_str());
    }
    assert(views(params@) =~= seq![event.event_uuid@] + update_values(*event, time@));
    proof {
        let vs = views(params@);
        let extra = update_values(*event, time@);
        assert(params@[0]@ == vs[0]);
        assert forall|k: int| 0 <= k < update_columns(*event).len() implies #[trigger] params@[k + 1]@
            == column_value(*event, time@, update_columns(*event)[k]) by {
            assert(params@[k + 1]@ == vs[k + 1]);
            assert(vs[k + 1] == extra[k]);
            assert(extra[k] == column_value(*event, time@, update_columns(*event)[k]));
        }
    }
    params
}

/// The SQL text that updates `event`: its UUID is bound to `?1` and the new
/// values to `?2` onwards, never written into the text.
pub fn event_update_sql(event: &EventSpec) -> (sql: String)
    ensures
        sql@ == update_statement(*event),
{
    let columns = event_update_columns(event);
    let marks = number_placeholders(&columns, 2);
    let joined = join_strings(&marks, ", ");
    let mut sql = String::new();
    sql.append("UPDATE events SET ");
    sql.append(joined.as_str());
    sql.append(" WHERE uuid = ?1;");
    assert(sql@ =~= update_statement(*event));
    sql
}

/// The placeholders `?1`, `?2`, ... `?n` of `n` bound parameters.
pub open spec fn placeholders(n: nat) -> Seq<Seq<char>> {
    Seq::new(n, |i: int| "?"@ + decimal((i + 1) as nat))
}

/// The statement that deletes the events whose UUID is one of the `n` texts
/// bound to `?1` to `?n`.
pub open spec fn delete_statement(n: nat) -> Seq<char> {
    "DELETE FROM events WHERE uuid IN ("@ + seq_join(placeholders(n), ", "@) + ");"@
}

/// The SQL text that deletes the events whose UUID is one of `count` bound
/// parameters.
pub fn delete_sql(count: usize) -> (sql: String)
    ensures
        sql@ == delete_statement(count as nat),
{
    let mut marks: Vec<String> = Vec::new();
    let mut i: usize = 0;
    while i < count
        invariant
            i <= count,
            views(marks@) == placeholders(i as nat),
        decreases count - i,
    {
        let mut mark = String::new();
        mark.append("?");
        mark.append(decimal_string(i + 1).as_str());
        assert(mark@ == "?"@ + decimal((i + 1) as nat));
        let ghost before = marks@;
        marks.push(mark);
        assert(marks@ == before.push(mark));
        assert(views(before.push(mark)) =~= views(before).push(mark@));
        assert(placeholders((i + 1) as nat) =~= placeholders(i as nat).push("?"@ + decimal((i + 1) as nat)));
        assert(views(marks@) =~= placeholders((i + 1) as nat));
        i = i + 1;
    }
    let mut sql = String::new();
    sql.append("DELETE FROM events WHERE uuid IN (");
    sql.append(join_strings(&marks, ", ").as_str());
    sql.append(");");
    sql
}

/// Joining a single item gives the item itself, and joining none gives the
/// empty text.
pub proof fn lemma_join_single(item: Seq<char>, sep: Seq<char>)
    ensures
        seq_join(seq![item], sep) == item,
        seq_join(Seq::<Seq<char>>::empty(), sep) == Seq::<char>::empty(),
{
}

/// Each separator stands between two neighbours: joining `list` and then one
/// more item appends the separator and the item.
pub proof fn lemma_join_push(list: Seq<Seq<char>>, item: Seq<char>, sep: Seq<char>)
    requires
        list.len() > 0,
    ensures
        seq_join(list.push(item), sep) == seq_join(list, sep) + sep + item,
{
    assert(list.push(item).drop_last() =~= list);
}

/// An update always sets the title first and the time second, sets each of
/// href, description and image hash exactly when it is not empty, and binds
/// one value to each assignment, in the same order; no value is ever part of
/// the statement's text.
pub proof fn lemma_update_assignments(event: EventSpec, time: Seq<char>)
    ensures
        update_columns(event)[0] == "title="@,
        update_columns(event)[1] == "time="@,
        update_values(event, time)[0] == event.event_title@,
        update_values(event, time)[1] == time,
        update_columns(event).len() == update_values(event, time).len(),
        update_columns(event).len() == 2 + (if event.event_href@.len() > 0 { 1int } else { 0 })
            + (if event.event_description@.len() > 0 { 1int } else { 0 })
            + (if event.image_hash@.len() > 0 { 1int } else { 0 }),
        event.image_hash@.len() > 0 ==> update_columns(event).last() == "image_hash="@
            && update_values(event, time).last() == event.image_hash@,
{
}

/// The field of `event` that an assignment of `column` sets, with `time` as
/// the stored time: the column named in the statement decides the value.
pub open spec fn column_value(event: EventSpec, time: Seq<char>, column: Seq<char>) -> Seq<char> {
    if column == "title="@ {
        event.event_title@
    } else if column == "time="@ {
        time
    } else if column == "href="@ {
        event.event_href@
    } else if column == "desc="@ {
        event.event_description@
    } else if column == "image_hash="@ {
        event.image_hash@
    } else {
        seq![]
    }
}

/// Each value an update binds belongs to the column it is bound to: the k-th
/// assignment names a column of the events table and the k-th value is that
/// field of the event, so no field is ever written into another column.
pub proof fn lemma_update_values_match_columns(event: EventSpec, time: Seq<char>)
    ensures
        update_values(event, time).len() == update_columns(event).len(),
        forall|k: int|
            0 <= k < update_columns(event).len() ==> #[trigger] update_values(event, time)[k]
                == column_value(event, time, update_columns(event)[k]),
{
    reveal_strlit("title=");
    reveal_strlit("time=");
    reveal_strlit("href=");
    reveal_strlit("desc=");
    reveal_strlit("image_hash=");
    assert("title="@ != "time="@) by {
        assert("title="@.len() != "time="@.len());
    }
    assert("title="@ != "href="@) by {
        assert("title="@.len() != "href="@.len());
    }
    assert("title="@ != "desc="@) by {
        assert("title="@.len() != "desc="@.len());
    }
    assert("time="@ != "href="@) by {
        assert("time="@[0] != "href="@[0]);
    }
    assert("time="@ != "desc="@) by {
        assert("time="@[0] != "desc="@[0]);
    }
    assert("href="@ != "desc="@) by {
        assert("href="@[0] != "desc="@[0]);
    }
    assert("title="@ != "image_hash="@) by {
        assert("title="@.len() != "image_hash="@.len());
    }
    assert("time="@ != "image_hash="@) by {
        assert("time="@.len() != "image_hash="@.len());
    }
    assert("href="@ != "image_hash="@) by {
        assert("href="@.len() != "image_hash="@.len());
    }
    assert("desc="@ != "image_hash="@) by {
        assert("desc="@.len() != "image_hash="@.len());
    }
}

/// The text of an update statement depends only on which of href,
/// description and image hash are empty, never on the values themselves: a
/// title or any other value cannot change what the statement does.
pub proof fn lemma_update_text_independent_of_values(a: EventSpec, b: EventSpec)
    requires
        (a.event_href@.len() > 0) == (b.event_href@.len() > 0),
        (a.event_description@.len() > 0) == (b.event_description@.len() > 0),
        (a.image_hash@.len() > 0) == (b.image_hash@.len() > 0),
    ensures
        update_statement(a) == update_statement(b),
{
    assert(update_columns(a) == update_columns(b));
}

/// A delete request binds one placeholder per listed UUID: with one UUID the
/// statement is `DELETE FROM events WHERE uuid IN (?1);`.
pub proof fn lemma_delete_one()
    ensures
        placeholders(1) == seq!["?"@ + seq!['1']],
        delete_statement(1) == "DELETE FROM events WHERE uuid IN ("@ + "?"@ + seq!['1'] + ");"@,
{
    assert(decimal(1) =~= seq![crate::decimal::decimal_digit(1)]);
    assert(('0' as int) + 1 == ('1' as int));
    assert(placeholders(1) =~= seq!["?"@ + seq!['1']]);
}

} // verus!
