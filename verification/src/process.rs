//! Serving one connection: decoding the request, carrying out the action
//! and encoding the answer.

pub mod action;
pub mod check_dead_link;
pub mod dispatch;
pub mod process_result;

use crate::db::models::{WebsiteAccountWithDeadLink, WebsiteAccountWithDeadLinkView};
use crate::decimal::{append_i32, int_text, lemma_int_text_avoids};
use crate::process::action::{decode_request, read_request, DecodeError};
use crate::process::dispatch::{
    first_step, handle_action, next_step, resume, Effect, EffectView, Event, EventView, Pending,
    PendingView, Step, StepView,
};
use crate::process::process_result::{result_view, ProError, ProErrorView, ProOk, ProOkView};
use crate::text::{fields_avoid, join, lemma_join_avoids, lemma_split_join, split};
use vstd::prelude::*;
use vstd::string::StringExecFns;

verus! {

/// The digit that opens a response: `0` acknowledgement, `1` listing,
/// `2` dead-link report, `3` failed login check, `4` failed store.
pub open spec fn response_code(result: Result<ProOkView, ProErrorView>) -> char {
    match result {
        Ok(ProOkView::Ack) => '0',
        Ok(ProOkView::Info(_)) => '1',
        Ok(ProOkView::DeadLink(_)) => '2',
        Err(ProErrorView::IdentityError(_)) => '3',
        Err(ProErrorView::DbError(_)) => '4',
    }
}

/// How a verdict is written: `0` for a dead link, `1` for a live one.
pub open spec fn liveness_code(dead_link: bool) -> Seq<char> {
    if dead_link {
        seq!['0']
    } else {
        seq!['1']
    }
}

/// How an optional text is written: as it is, or as nothing when absent.
pub open spec fn text_or_empty(text: Option<Seq<char>>) -> Seq<char> {
    match text {
        Some(text) => text,
        None => Seq::<char>::empty(),
    }
}

/// How an identifier is written: in decimal, with `-1` for an absent one.
pub open spec fn id_text(id: Option<i32>) -> Seq<char> {
    match id {
        Some(id) => int_text(id as int),
        None => int_text(-1),
    }
}

/// The columns of one listing row: identifier, account, password, site
/// URL, site name, note, verdict.
pub open spec fn info_columns(item: WebsiteAccountWithDeadLinkView) -> Seq<Seq<char>> {
    seq![
        id_text(item.id),
        item.account,
        item.password,
        item.site_url,
        text_or_empty(item.site_name),
        text_or_empty(item.note),
        liveness_code(item.dead_link),
    ]
}

/// The columns of one row of a dead-link report: identifier, verdict.
pub open spec fn dead_link_columns(item: (i32, bool)) -> Seq<Seq<char>> {
    seq![int_text(item.0 as int), liveness_code(item.1)]
}

/// The rows of a response, each as its columns. Only a listing and a
/// dead-link report have rows.
pub open spec fn response_rows(result: Result<ProOkView, ProErrorView>) -> Seq<Seq<Seq<char>>> {
    match result {
        Ok(ProOkView::Info(list)) => Seq::new(list.len(), |i: int| info_columns(list[i])),
        Ok(ProOkView::DeadLink(list)) => Seq::new(list.len(), |i: int| dead_link_columns(list[i])),
        _ => Seq::empty(),
    }
}

/// The lines of a response: the response code, then one line per row with
/// a tab between its columns.
pub open spec fn response_lines(result: Result<ProOkView, ProErrorView>) -> Seq<Seq<char>> {
    let rows = response_rows(result);
    seq![seq![response_code(result)]] + Seq::new(rows.len(), |i: int| join(rows[i], '\t'))
}

/// The whole response: its lines with a line feed between them, and none
/// after the last.
pub open spec fn response_text(result: Result<ProOkView, ProErrorView>) -> Seq<char> {
    join(response_lines(result), '\n')
}

/// Gluing one more field on: the separator, then the field.
proof fn lemma_join_push(fields: Seq<Seq<char>>, last: Seq<char>, sep: char)
    requires
        fields.len() >= 1,
    ensures
        join(fields.push(last), sep) == join(fields, sep).push(sep) + last,
{
    assert(fields.push(last).drop_last() =~= fields);
}

/// Writes one more column at the end of the row that `out` ends with.
fn append_column(out: &mut String, column: &str, Ghost(lead): Ghost<Seq<char>>, Ghost(row): Ghost<
    Seq<Seq<char>>,
>)
    requires
        row.len() >= 1,
        old(out)@ == lead + join(row, '\t'),
    ensures
        final(out)@ == lead + join(row.push(column@), '\t'),
{
    proof {
        reveal_strlit("\t");
        lemma_join_push(row, column@, '\t');
    }
    out.append("\t");
    out.append(column);
    proof {
        assert("\t"@ =~= seq!['\t']);
        assert(final(out)@ =~= lead + join(row.push(column@), '\t'));
    }
}

/// The text of a verdict.
fn liveness_str(dead_link: bool) -> (code: &'static str)
    ensures
        code@ == liveness_code(dead_link),
{
    proof {
        reveal_strlit("0");
        reveal_strlit("1");
    }
    let code: &'static str = if dead_link {
        "0"
    } else {
        "1"
    };
    assert(code@ =~= liveness_code(dead_link));
    code
}

/// The text of an optional field.
fn text_or_empty_str(text: &Option<String>) -> (shown: &str)
    ensures
        shown@ == text_or_empty(text.deep_view()),
{
    match text {
        Some(text) => text.as_str(),
        None => {
            proof {
                reveal_strlit("");
            }
            let shown: &'static str = "";
            assert(shown@ =~= Seq::<char>::empty());
            shown
        },
    }
}

/// Writes a line feed and the listing row of `item` at the end of `out`.
fn append_info_row(out: &mut String, item: &WebsiteAccountWithDeadLink)
    ensures
        final(out)@ == old(out)@.push('\n') + join(info_columns(item@), '\t'),
{
    proof {
        reveal_strlit("\n");
    }
    out.append("\n");
    let ghost lead = out@;
    assert(lead =~= old(out)@.push('\n'));
    let id: i32 = match item.id {
        Some(id) => id,
        None => -1,
    };
    append_i32(out, id);
    let ghost row = seq![id_text(item.id)];
    append_column(out, item.account.as_str(), Ghost(lead), Ghost(row));
    let ghost row = row.push(item.account@);
    append_column(out, item.password.as_str(), Ghost(lead), Ghost(row));
    let ghost row = row.push(item.password@);
    append_column(out, item.site_url.as_str(), Ghost(lead), Ghost(row));
    let ghost row = row.push(item.site_url@);
    append_column(out, text_or_empty_str(&item.site_name), Ghost(lead), Ghost(row));
    let ghost row = row.push(text_or_empty(item.site_name.deep_view()));
    append_column(out, text_or_empty_str(&item.note), Ghost(lead), Ghost(row));
    let ghost row = row.push(text_or_empty(item.note.deep_view()));
    append_column(out, liveness_str(item.dead_link), Ghost(lead), Ghost(row));
    proof {
        assert(row.push(liveness_code(item.dead_link)) =~= info_columns(item@));
    }
}

/// Writes a line feed and the report row of `item` at the end of `out`.
fn append_dead_link_row(out: &mut String, item: (i32, bool))
    ensures
        final(out)@ == old(out)@.push('\n') + join(dead_link_columns(item), '\t'),
{
    proof {
        reveal_strlit("\n");
    }
    out.append("\n");
    let ghost lead = out@;
    assert(lead =~= old(out)@.push('\n'));
    append_i32(out, item.0);
    let ghost row = seq![int_text(item.0 as int)];
    append_column(out, liveness_str(item.1), Ghost(lead), Ghost(row));
    proof {
        assert(row.push(liveness_code(item.1)) =~= dead_link_columns(item));
    }
}

/// Encodes the answer to a request: the response code and, for a listing
/// or a dead-link report, one row per entry.
///
/// A failure is answered with its code alone; the reason it carries is for
/// the log and is never put on the wire.
pub fn answer_request(result: &Result<ProOk, ProError>) -> (response: String)
    ensures
        response@ == response_text(result_view(*result)),
{
    let ghost view = result_view(*result);
    let ghost lines = response_lines(view);
    match result {
        Ok(ProOk::Ack) => {
            proof {
                reveal_strlit("0");
                assert("0"@ =~= seq!['0']);
            }
            String::from_str("0")
        },
        Ok(ProOk::Info(list)) => {
            proof {
                reveal_strlit("1");
                assert("1"@ =~= seq!['1']);
                assert(lines.take(1) =~= seq![seq!['1']]);
            }
            let mut response: String = String::from_str("1");
            let mut i: usize = 0;
            while i < list.len()
                invariant
                    i <= list@.len(),
                    view == result_view(Ok::<ProOk, ProError>(ProOk::Info(*list))),
                    lines == response_lines(view),
                    response@ == join(lines.take(i + 1), '\n'),
                decreases list@.len() - i,
            {
                proof {
                    let upto = lines.take(i + 2);
                    assert(upto.drop_last() =~= lines.take(i + 1));
                    assert(upto.last() == join(info_columns(list@[i as int]@), '\t'));
                }
                append_info_row(&mut response, &list[i]);
                i = i + 1;
            }
            proof {
                assert(lines.take(i + 1) =~= lines);
            }
            response
        },
        Ok(ProOk::DeadLink(list)) => {
            proof {
                reveal_strlit("2");
                assert("2"@ =~= seq!['2']);
                assert(lines.take(1) =~= seq![seq!['2']]);
            }
            let mut response: String = String::from_str("2");
            let mut i: usize = 0;
            while i < list.len()
                invariant
                    i <= list@.len(),
                    view == result_view(Ok::<ProOk, ProError>(ProOk::DeadLink(*list))),
                    lines == response_lines(view),
                    response@ == join(lines.take(i + 1), '\n'),
                decreases list@.len() - i,
            {
                proof {
                    let upto = lines.take(i + 2);
                    assert(upto.drop_last() =~= lines.take(i + 1));
                    assert(upto.last() == join(dead_link_columns(list@[i as int]), '\t'));
                }
                append_dead_link_row(&mut response, list[i]);
                i = i + 1;
            }
            proof {
                assert(lines.take(i + 1) =~= lines);
            }
            response
        },
        Err(ProError::IdentityError(_)) => {
            proof {
                reveal_strlit("3");
                assert("3"@ =~= seq!['3']);
            }
            String::from_str("3")
        },
        Err(ProError::DbError(_)) => {
            proof {
                reveal_strlit("4");
                assert("4"@ =~= seq!['4']);
            }
            String::from_str("4")
        },
    }
}

/// Whether `text` can stand in a column as it is: it holds neither a tab
/// nor a line feed.
pub open spec fn fits_column(text: Seq<char>) -> bool {
    !text.contains('\t') && !text.contains('\n')
}

/// Whether every text of the record `item` fits a column.
pub open spec fn fits_row(item: WebsiteAccountWithDeadLinkView) -> bool {
    &&& fits_column(item.account)
    &&& fits_column(item.password)
    &&& fits_column(item.site_url)
    &&& fits_column(text_or_empty(item.site_name))
    &&& fits_column(text_or_empty(item.note))
}

/// Whether every record of a listing fits its row. Responses of the other
/// kinds hold no text of the client's and always qualify.
pub open spec fn fits_wire(result: Result<ProOkView, ProErrorView>) -> bool {
    match result {
        Ok(ProOkView::Info(list)) => forall|i: int|
            0 <= i < list.len() ==> fits_row(#[trigger] list[i]),
        _ => true,
    }
}

/// The columns of a row hold neither a tab nor a line feed when the texts
/// of its record hold none.
proof fn lemma_info_columns_avoid(item: WebsiteAccountWithDeadLinkView, c: char)
    requires
        fits_row(item),
        c == '\t' || c == '\n',
    ensures
        fields_avoid(info_columns(item), c),
{
    let columns = info_columns(item);
    lemma_int_text_avoids(-1, c);
    if item.id is Some {
        lemma_int_text_avoids(item.id->0 as int, c);
    }
    assert forall|i: int| 0 <= i < columns.len() implies !(#[trigger] columns[i]).contains(c) by {
        if i == 6 {
            assert(!liveness_code(item.dead_link).contains(c));
        }
    }
}

/// The columns of a report row never hold a tab or a line feed.
proof fn lemma_dead_link_columns_avoid(item: (i32, bool), c: char)
    requires
        c == '\t' || c == '\n',
    ensures
        fields_avoid(dead_link_columns(item), c),
{
    let columns = dead_link_columns(item);
    lemma_int_text_avoids(item.0 as int, c);
    assert forall|i: int| 0 <= i < columns.len() implies !(#[trigger] columns[i]).contains(c) by {
        if i == 1 {
            assert(!liveness_code(item.1).contains(c));
        }
    }
}

/// The rows of a response that fits the wire hold neither a tab nor a line
/// feed in any column.
proof fn lemma_rows_avoid(result: Result<ProOkView, ProErrorView>, c: char)
    requires
        fits_wire(result),
        c == '\t' || c == '\n',
    ensures
        forall|i: int|
            0 <= i < response_rows(result).len() ==> fields_avoid(
                #[trigger] response_rows(result)[i],
                c,
            ),
{
    let rows = response_rows(result);
    assert forall|i: int| 0 <= i < rows.len() implies fields_avoid(#[trigger] rows[i], c) by {
        match result {
            Ok(ProOkView::Info(list)) => {
                assert(fits_row(list[i]));
                lemma_info_columns_avoid(list[i], c);
            },
            Ok(ProOkView::DeadLink(list)) => {
                lemma_dead_link_columns_avoid(list[i], c);
            },
            _ => {},
        }
    }
}

/// What is written can be read back column by column: cutting a response
/// at its line feeds gives the response code and the rows, and cutting a
/// row at its tabs gives exactly the columns that were written, the
/// inverted verdict among them.
///
/// This holds of every response whose texts hold neither a tab nor a line
/// feed; a text that holds one spills into the next column or row.
pub proof fn lemma_response_round_trip(result: Result<ProOkView, ProErrorView>)
    requires
        fits_wire(result),
    ensures
        split(response_text(result), '\n') == response_lines(result),
        response_lines(result).len() == response_rows(result).len() + 1,
        response_lines(result)[0] == seq![response_code(result)],
        forall|i: int|
            0 <= i < response_rows(result).len() ==> split(
                #[trigger] response_lines(result)[i + 1],
                '\t',
            ) == response_rows(result)[i],
{
    let rows = response_rows(result);
    let lines = response_lines(result);
    lemma_rows_avoid(result, '\t');
    lemma_rows_avoid(result, '\n');
    assert forall|i: int| 0 <= i < rows.len() implies split(#[trigger] lines[i + 1], '\t')
        == rows[i] by {
        assert(rows[i].len() >= 1);
        assert(fields_avoid(rows[i], '\t'));
        lemma_split_join(rows[i], '\t');
    }
    assert(fields_avoid(lines, '\n')) by {
        assert forall|i: int| 0 <= i < lines.len() implies !(#[trigger] lines[i]).contains(
            '\n',
        ) by {
            if i > 0 {
                assert(fields_avoid(rows[i - 1], '\n'));
                lemma_join_avoids(rows[i - 1], '\t', '\n');
                assert(lines[i] == join(rows[i - 1], '\t'));
            }
        }
    }
    lemma_split_join(lines, '\n');
}

/// Where the handling of one connection stands. A connection carries one
/// request and one response and is then done.
#[derive(Debug, Clone, PartialEq, Eq)]
pub enum Connection {
    /// Waiting for the one read of the request.
    Reading,
    /// The request is decoded and being served.
    Serving { pending: Pending },
    /// The response has been handed out to be written.
    Writing,
    /// Nothing more happens on this connection.
    Closed,
}

/// What a [`Connection`] holds, as mathematical values.
pub enum ConnectionView {
    Reading,
    Serving { pending: PendingView },
    Writing,
    Closed,
}

impl View for Connection {
    type V = ConnectionView;

    open spec fn view(&self) -> ConnectionView {
        match self {
            Connection::Reading => ConnectionView::Reading,
            Connection::Serving { pending } => ConnectionView::Serving { pending: pending@ },
            Connection::Writing => ConnectionView::Writing,
            Connection::Closed => ConnectionView::Closed,
        }
    }
}

/// What the host reports to the connection handler.
#[derive(Debug, PartialEq, Eq)]
pub enum Input {
    /// The read returned `count` bytes into `buffer`, which was all zeros
    /// before it.
    Received { buffer: Vec<u8>, count: usize },
    /// The read failed, or the socket was not ready after all.
    ReadFailed { reason: String },
    /// A call made for the dispatcher has ended.
    Reported { event: Event },
    /// The one attempt to write the response has ended.
    Written { ok: bool },
}

/// What an [`Input`] holds, as mathematical values.
pub enum InputView {
    Received { buffer: Seq<u8>, count: usize },
    ReadFailed { reason: Seq<char> },
    Reported { event: EventView },
    Written { ok: bool },
}

impl View for Input {
    type V = InputView;

    open spec fn view(&self) -> InputView {
        match self {
            Input::Received { buffer, count } => InputView::Received {
                buffer: buffer@,
                count: *count,
            },
            Input::ReadFailed { reason } => InputView::ReadFailed { reason: reason@ },
            Input::Reported { event } => InputView::Reported { event: event@ },
            Input::Written { ok } => InputView::Written { ok: *ok },
        }
    }
}

/// Why a connection is closed.
#[derive(Debug, Clone, Copy, PartialEq, Eq)]
pub enum Closing {
    /// The response was written.
    Answered,
    /// The read failed.
    ReadFailed,
    /// The read returned no bytes.
    EmptyRead,
    /// The request did not decode.
    BadRequest { error: DecodeError },
    /// The response could not be written.
    WriteFailed,
}

/// What the host is to do next for the connection.
#[derive(Debug, PartialEq, Eq)]
pub enum Output {
    /// Make the call `effect` and report what came of it.
    Perform { effect: Effect },
    /// Wait until the socket is writable, write `response` in one attempt
    /// and report whether that worked. `failure` is the reason behind a
    /// failure response, for the log.
    Write { response: String, failure: Option<ProError> },
    /// Close the connection, writing nothing more.
    Close { cause: Closing },
}

/// What an [`Output`] holds, as mathematical values.
pub enum OutputView {
    Perform { effect: EffectView },
    Write { response: Seq<char>, failure: Option<ProErrorView> },
    Close { cause: Closing },
}

impl View for Output {
    type V = OutputView;

    open spec fn view(&self) -> OutputView {
        match self {
            Output::Perform { effect } => OutputView::Perform { effect: effect@ },
            Output::Write { response, failure } => OutputView::Write {
                response: response@,
                failure: match failure {
                    Some(failure) => Some(failure@),
                    None => None,
                },
            },
            Output::Close { cause } => OutputView::Close { cause: *cause },
        }
    }
}

/// The failure that a finished request ends in, if it ends in one.
pub open spec fn failure_of(result: Result<ProOkView, ProErrorView>) -> Option<ProErrorView> {
    match result {
        Ok(_) => None,
        Err(failure) => Some(failure),
    }
}

/// How a connection in state `connection` reacts to `input`; nothing when
/// `input` is not what the connection is waiting for.
///
/// A read that failed, that returned nothing, or whose bytes do not decode
/// closes the connection without a response. A decoded request is served
/// step by step; its result is encoded and written once; whether or not
/// the write works, the connection is then closed.
pub open spec fn next_output(connection: ConnectionView, input: InputView) -> Option<
    (ConnectionView, OutputView),
> {
    match (connection, input) {
        (ConnectionView::Reading, InputView::ReadFailed { reason }) => Some(
            (ConnectionView::Closed, OutputView::Close { cause: Closing::ReadFailed }),
        ),
        (ConnectionView::Reading, InputView::Received { buffer, count }) => Some(
            if count == 0 {
                (ConnectionView::Closed, OutputView::Close { cause: Closing::EmptyRead })
            } else {
                match decode_request(buffer) {
                    Err(error) => (
                        ConnectionView::Closed,
                        OutputView::Close { cause: Closing::BadRequest { error } },
                    ),
                    Ok(action) => (
                        ConnectionView::Serving { pending: first_step(action).0 },
                        OutputView::Perform { effect: first_step(action).1 },
                    ),
                }
            },
        ),
        (ConnectionView::Serving { pending }, InputView::Reported { event }) => {
            match next_step(pending, event) {
                None => None,
                Some(StepView::Perform { effect, pending }) => Some(
                    (ConnectionView::Serving { pending }, OutputView::Perform { effect }),
                ),
                Some(StepView::Finish { result }) => Some(
                    (
                        ConnectionView::Writing,
                        OutputView::Write {
                            response: response_text(result),
                            failure: failure_of(result),
                        },
                    ),
                ),
            }
        },
        (ConnectionView::Writing, InputView::Written { ok }) => Some(
            (
                ConnectionView::Closed,
                OutputView::Close {
                    cause: if ok {
                        Closing::Answered
                    } else {
                        Closing::WriteFailed
                    },
                },
            ),
        ),
        _ => None,
    }
}

/// Whether `moved` is the exec-level counterpart of `expected`.
pub open spec fn moved_as(
    moved: Option<(Connection, Output)>,
    expected: Option<(ConnectionView, OutputView)>,
) -> bool {
    match moved {
        Some((connection, output)) => expected == Some((connection@, output@)),
        None => expected is None,
    }
}

/// Handles one event on a connection: takes the state the connection is
/// in and what the host reports, and returns the state it moves to and
/// what the host is to do next.
///
/// A fresh connection starts in [`Connection::Reading`]: the host waits
/// until the socket is readable, reads once into a zeroed buffer and
/// reports the read. Returns `None`, and does nothing, exactly when `input`
/// is not what the connection is waiting for.
pub fn process(connection: Connection, input: Input) -> (moved: Option<(Connection, Output)>)
    ensures
        moved_as(moved, next_output(connection@, input@)),
{
    match (connection, input) {
        (Connection::Reading, Input::ReadFailed { reason: _ }) => Some(
            (Connection::Closed, Output::Close { cause: Closing::ReadFailed }),
        ),
        (Connection::Reading, Input::Received { buffer, count }) => {
            if count == 0 {
                return Some((Connection::Closed, Output::Close { cause: Closing::EmptyRead }));
            }
            match read_request(buffer.as_slice()) {
                Err(error) => Some(
                    (Connection::Closed, Output::Close { cause: Closing::BadRequest { error } }),
                ),
                Ok(action) => {
                    let (pending, effect) = handle_action(action);
                    Some((Connection::Serving { pending }, Output::Perform { effect }))
                },
            }
        },
        (Connection::Serving { pending }, Input::Reported { event }) => {
            match resume(pending, event) {
                None => None,
                Some(Step::Perform { effect, pending }) => Some(
                    (Connection::Serving { pending }, Output::Perform { effect }),
                ),
                Some(Step::Finish { result }) => {
                    let response: String = answer_request(&result);
                    let failure: Option<ProError> = match result {
                        Ok(_) => None,
                        Err(failure) => Some(failure),
                    };
                    Some((Connection::Writing, Output::Write { response, failure }))
                },
            }
        },
        (Connection::Writing, Input::Written { ok }) => {
            let cause: Closing = if ok {
                Closing::Answered
            } else {
                Closing::WriteFailed
            };
            Some((Connection::Closed, Output::Close { cause }))
        },
        _ => None,
    }
}

/// A request that cannot be read is never answered: after a failed read,
/// an empty read, or bytes that do not decode, the connection is closed
/// and nothing is written.
pub proof fn lemma_unreadable_request_is_dropped(input: InputView)
    requires
        input is ReadFailed || (input matches InputView::Received { buffer, count } && (count == 0
            || decode_request(buffer) is Err)),
    ensures
        next_output(ConnectionView::Reading, input) matches Some((connection, output))
            && connection is Closed && output is Close,
{
}

/// A response is written only as the answer to a request that was served
/// to its end, and what is written is the encoding of its result.
pub proof fn lemma_write_answers_served_request(connection: ConnectionView, input: InputView)
    requires
        next_output(connection, input) matches Some((_, output)) && output is Write,
    ensures
        connection matches ConnectionView::Serving { pending } && input matches InputView::Reported {
            event,
        } && next_step(pending, event) matches Some(StepView::Finish { result })
            && next_output(connection, input) == Some(
            (
                ConnectionView::Writing,
                OutputView::Write { response: response_text(result), failure: failure_of(result) },
            ),
        ),
{
}

/// After the response has been handed out, the connection only closes;
/// once closed, it reacts to nothing. So a connection sees at most one
/// response, and a failed write is not tried again.
pub proof fn lemma_one_response_per_connection(input: InputView)
    ensures
        next_output(ConnectionView::Closed, input) is None,
        next_output(ConnectionView::Writing, input) matches Some((connection, output))
            ==> connection is Closed && output is Close,
{
}

} // verus!
