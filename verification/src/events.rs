//! Decisions of the event endpoints: which requests are admitted, what is
//! written to the database, and how stored events are returned.

use vstd::prelude::*;
use crate::dates::{parse_date, chrono_parsed_date_time, date_text, storage_format, stored_time, spec_stored_time, midnight_text, spec_display_time, display_time, chrono_parsed_date,
    date_format, storage_text, CalendarDate};
use crate::messages::{EventSpec, EventList, EventPost, EventUpdate, EventDelete};
use crate::reply::{Reply, Status, DbStage, failed, failed_text, refused, success, success_text, database_failure,
    database_failure_status};
use crate::sql::{event_update_sql, event_update_parameters, delete_sql, update_statement, update_values,
    delete_statement, views};
use crate::auth::check_admin;

verus! {

/// An update of one event: the statement, and its parameters in order (the
/// UUID for `?1`, then the new values).
pub struct UpdateStatement {
    pub sql: String,
    pub params: Vec<String>,
}

/// The time an update stores: a posted `YYYY/MM/DD` date at midnight in
/// storage form, as a post stores it; any other text as it was sent.
pub open spec fn update_time(posted: Seq<char>) -> Seq<char> {
    match spec_stored_time(posted) {
        Some(t) => t,
        None => posted,
    }
}

/// The update of `event`, given the stored form of its time where it reads
/// as `YYYY/MM/DD`; otherwise its time is stored as it was sent.
pub fn update_for(event: &EventSpec, stored: Option<String>) -> (u: UpdateStatement)
    ensures
        u.sql@ == update_statement(*event),
        views(u.params@) == seq![event.event_uuid@] + update_values(
            *event,
            match stored {
                Some(t) => t@,
                None => event.event_time@,
            },
        ),
{
    let time = match stored {
        Some(t) => t,
        None => event.event_time.clone(),
    };
    let sql = event_update_sql(event);
    let params = event_update_parameters(event, time);
    UpdateStatement { sql, params }
}

/// Decides an update request. A body that does not decode is a server error
/// (500), a wrong token 401 and a request without an event a bad request
/// (400). Otherwise the event is updated with its values bound as
/// parameters; a `YYYY/MM/DD` time is stored as a post stores it (the date at
/// midnight), any other time as it was sent.
pub fn update_request(request: Option<EventUpdate>, admin: &String) -> (decided: Result<
    UpdateStatement,
    Reply,
>)
    ensures
        match request {
            None => decided matches Err(r) && refused(r, Status::InternalServerError),
            Some(req) => if req.token@ != admin@ {
                decided matches Err(r) && refused(r, Status::Unauthorized)
            } else {
                match req.event {
                    None => decided matches Err(r) && refused(r, Status::BadRequest),
                    Some(e) => decided matches Ok(u) && u.sql@ == update_statement(e) && views(u.params@)
                        == seq![e.event_uuid@] + update_values(e, update_time(e.event_time@)),
                }
            },
        },
{
    let req = match request {
        None => {
            return Err(failed(Status::InternalServerError));
        },
        Some(req) => req,
    };
    check_admin(&req.token, admin)?;
    match &req.event {
        None => Err(failed(Status::BadRequest)),
        Some(e) => {
            let stored = stored_time(e.event_time.as_str());
            Ok(update_for(e, stored))
        },
    }
}

/// A deletion of events: the statement, and the UUIDs bound to `?1`, `?2`, ...
pub struct DeleteStatement {
    pub sql: String,
    pub uuids: Vec<String>,
}

/// Decides a delete request: on success, the statement that deletes every
/// event whose UUID the request lists, with those UUIDs as its parameters. A
/// body that does not decode is a server error (500), a wrong token 401.
pub fn delete_request(request: Option<EventDelete>, admin: &String) -> (decided: Result<
    DeleteStatement,
    Reply,
>)
    ensures
        match request {
            None => decided matches Err(r) && refused(r, Status::InternalServerError),
            Some(req) => if req.token@ != admin@ {
                decided matches Err(r) && refused(r, Status::Unauthorized)
            } else {
                decided matches Ok(d) && d.sql@ == delete_statement(req.uuids@.len())
                    && d.uuids@ == req.uuids@
            },
        },
{
    match request {
        None => Err(failed(Status::InternalServerError)),
        Some(req) => {
            check_admin(&req.token, admin)?;
            let sql = delete_sql(req.uuids.len());
            Ok(DeleteStatement { sql, uuids: req.uuids })
        },
    }
}

/// Decides a request that creates events: on success, the events to insert,
/// in order. A body that does not decode is a server error (500), a wrong
/// token 401.
pub fn post_request(request: Option<EventPost>, admin: &String) -> (decided: Result<
    Vec<EventSpec>,
    Reply,
>)
    ensures
        match request {
            None => decided matches Err(r) && refused(r, Status::InternalServerError),
            Some(req) => if req.token@ != admin@ {
                decided matches Err(r) && refused(r, Status::Unauthorized)
            } else {
                decided matches Ok(events) && events@ == req.events@
            },
        },
{
    match request {
        None => Err(failed(Status::InternalServerError)),
        Some(req) => {
            check_admin(&req.token, admin)?;
            Ok(req.events)
        },
    }
}

/// The values inserted for one posted event.
pub struct InsertRow {
    pub uuid: String,
    pub time: String,
    pub title: String,
    pub href: Option<String>,
    pub image_hash: Option<String>,
    pub description: String,
}

/// An empty text is stored as NULL.
pub open spec fn nullable(text: Seq<char>, stored: Option<String>) -> bool {
    if text.len() == 0 {
        stored is None
    } else {
        stored matches Some(s) && s@ == text
    }
}

/// `row` holds `event` with `time` as its stored time.
pub open spec fn row_of(row: InsertRow, event: EventSpec, time: Seq<char>) -> bool {
    &&& row.uuid@ == event.event_uuid@
    &&& row.time@ == time
    &&& row.title@ == event.event_title@
    &&& nullable(event.event_href@, row.href)
    &&& nullable(event.image_hash@, row.image_hash)
    &&& row.description@ == event.event_description@
}

fn nullable_text(text: &String) -> (stored: Option<String>)
    ensures
        nullable(text@, stored),
{
    if text.as_str().is_empty() {
        None
    } else {
        Some(text.clone())
    }
}

/// The row for `event`, given the date that parsing its time gave: a time that
/// does not parse is a server error (500); a date is stored at midnight.
pub fn insert_row_for(event: &EventSpec, date: Option<CalendarDate>) -> (row: Result<
    InsertRow,
    Reply,
>)
    requires
        date matches Some(d) ==> d.valid(),
    ensures
        match date {
            None => row matches Err(r) && refused(r, Status::InternalServerError),
            Some(d) => row matches Ok(row) && row_of(
                row,
                *event,
                storage_text((d.year as int, d.month as int, d.day as int, 0, 0, 0)),
            ),
        },
{
    match date {
        None => Err(failed(Status::InternalServerError)),
        Some(d) => Ok(
            InsertRow {
                uuid: event.event_uuid.clone(),
                time: midnight_text(d),
                title: event.event_title.clone(),
                href: nullable_text(&event.event_href),
                image_hash: nullable_text(&event.image_hash),
                description: event.event_description.clone(),
            },
        ),
    }
}

/// The row inserted for one posted event, whose time is read as `YYYY/MM/DD`.
pub fn insert_row(event: &EventSpec) -> (row: Result<InsertRow, Reply>)
    ensures
        match chrono_parsed_date(event.event_time@, date_format()) {
            None => row matches Err(r) && refused(r, Status::InternalServerError),
            Some(d) => row matches Ok(row) && row_of(
                row,
                *event,
                storage_text((d.0, d.1, d.2, 0, 0, 0)),
            ),
        },
{
    let date = parse_date(event.event_time.as_str(), "%Y/%m/%d");
    insert_row_for(event, date)
}

/// The insertion of the events of an admitted post request, one by one.
/// The first event whose time does not parse, or whose insertion fails,
/// ends the request; the events before it stay inserted.
pub struct PostProgress {
    pub events: Vec<EventSpec>,
    /// How many events have been handed out for insertion.
    pub next: usize,
}

/// What the server does next for a post request.
pub enum PostAction {
    /// Insert this row, then report how that went.
    Insert(InsertRow),
    /// Answer with this reply; the request is over.
    Finish(Reply),
}

/// The row handed out for `event`, or the reply that ends the request where
/// its time does not parse.
pub open spec fn insert_outcome(event: EventSpec, action: PostAction) -> bool {
    match chrono_parsed_date(event.event_time@, date_format()) {
        None => action matches PostAction::Finish(r) && refused(r, Status::InternalServerError),
        Some(d) => action matches PostAction::Insert(row) && row_of(
            row,
            event,
            storage_text((d.0, d.1, d.2, 0, 0, 0)),
        ),
    }
}

impl PostProgress {
    pub open spec fn wf(&self) -> bool {
        self.next <= self.events@.len()
    }

    /// Starts inserting `events`, from the first.
    pub fn new(events: Vec<EventSpec>) -> (progress: PostProgress)
        ensures
            progress.wf(),
            progress.next == 0,
            progress.events@ == events@,
    {
        PostProgress { events, next: 0 }
    }

    /// The next step, given how the insertion of the previous row went
    /// (`None` before the first row and after a row that was inserted).
    pub fn step(&mut self, failure: Option<DbStage>) -> (action: PostAction)
        requires
            old(self).wf(),
        ensures
            final(self).wf(),
            final(self).events@ == old(self).events@,
            match failure {
                Some(stage) => {
                    &&& final(self).next == old(self).next
                    &&& action matches PostAction::Finish(r)
                    &&& r.message@ == failed_text()
                    &&& r.status == database_failure_status(stage)
                },
                None => if old(self).next == old(self).events@.len() {
                    &&& final(self).next == old(self).next
                    &&& action matches PostAction::Finish(r)
                    &&& r.status == Status::Success
                    &&& r.message@ == success_text()
                } else {
                    &&& final(self).next == old(self).next + 1
                    &&& insert_outcome(old(self).events@[old(self).next as int], action)
                },
            },
    {
        match failure {
            Some(stage) => PostAction::Finish(database_failure(stage)),
            None => {
                if self.next == self.events.len() {
                    PostAction::Finish(success())
                } else {
                    let i = self.next;
                    self.next = i + 1;
                    match insert_row(&self.events[i]) {
                        Ok(row) => PostAction::Insert(row),
                        Err(reply) => PostAction::Finish(reply),
                    }
                }
            },
        }
    }
}

/// The text of an optional column, empty where it is NULL.
pub open spec fn or_empty(value: Option<String>) -> Seq<char> {
    match value {
        Some(s) => s@,
        None => seq![],
    }
}

fn text_or_empty(value: Option<String>) -> (text: String)
    ensures
        text@ == or_empty(value),
{
    match value {
        Some(s) => s,
        None => String::new(),
    }
}

/// The event of one database row; NULL columns become empty texts.
pub fn event_from_row(
    uuid: String,
    title: String,
    time: String,
    href: Option<String>,
    description: Option<String>,
    image_hash: Option<String>,
) -> (event: EventSpec)
    ensures
        event.event_uuid@ == uuid@,
        event.event_title@ == title@,
        event.event_time@ == time@,
        event.event_href@ == or_empty(href),
        event.event_description@ == or_empty(description),
        event.image_hash@ == or_empty(image_hash),
{
    EventSpec {
        event_uuid: uuid,
        event_title: title,
        event_time: time,
        event_href: text_or_empty(href),
        event_description: text_or_empty(description),
        image_hash: text_or_empty(image_hash),
    }
}

/// `shown` is `stored` with its time as the API shows it.
pub open spec fn shown_event(shown: EventSpec, stored: EventSpec) -> bool {
    &&& shown.event_uuid@ == stored.event_uuid@
    &&& shown.event_title@ == stored.event_title@
    &&& shown.event_time@ == spec_display_time(stored.event_time@)
    &&& shown.event_href@ == stored.event_href@
    &&& shown.event_description@ == stored.event_description@
    &&& shown.image_hash@ == stored.image_hash@
}

/// The answer to an event query: the stored events in order, each with its
/// time shown as `YYYY/MM/DD` where it parses as a stored time.
pub fn event_list(stored: &Vec<EventSpec>) -> (list: EventList)
    ensures
        list.events@.len() == stored@.len(),
        forall|i: int| 0 <= i < stored@.len() ==> shown_event(#[trigger] list.events@[i], stored@[i]),
        forall|i: int|
            0 <= i < stored@.len() ==> (chrono_parsed_date_time(stored@[i].event_time@, storage_format())
                matches Some(t) ==> (#[trigger] list.events@[i]).event_time@ == date_text(t.0, t.1, t.2)),
{
    let mut events: Vec<EventSpec> = Vec::new();
    let n = stored.len();

    let mut i: usize = 0;
    while i < n
        invariant
            n == stored@.len(),
            i <= n,
            events@.len() == i,
            forall|j: int| 0 <= j < i ==> shown_event(#[trigger] events@[j], stored@[j]),
        decreases n - i,
    {
        let e = &stored[i];
        let shown = EventSpec {
            event_uuid: e.event_uuid.clone(),
            event_title: e.event_title.clone(),
            event_time: display_time(&e.event_time),
            event_href: e.event_href.clone(),
            event_description: e.event_description.clone(),
            image_hash: e.image_hash.clone(),
        };
        events.push(shown);
        i = i + 1;
    }
    EventList { events }
}

} // verus!
