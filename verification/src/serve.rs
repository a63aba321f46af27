//! The decisions the static file server takes for one request, as a state
//! machine. The caller performs each action on the file system and hands
//! the answer back as the next event, until the machine answers with a
//! reply.
//!
//! For a request the machine first inspects the requested path (or
//! `index.html` when the path is empty). A file is served itself; for a
//! directory its `index.html` is served when that is a file; anything else
//! falls back to the root `index.html`, as a single-page application
//! expects. The chosen file must still be a file (else 404), must
//! canonicalize (else 404) and must lie inside the canonical root when the
//! root canonicalizes (else 403); a failed read answers 500.

use vstd::prelude::*;
use crate::mime::{MimeMap, cache_control, content_type, spec_cache_control, spec_content_type};
use crate::request::{relative_path, request_path, spec_relative_path, spec_request_path};

verus! {

/// What a path on disk is.
#[derive(Clone, Copy, Debug, PartialEq, Eq)]
pub enum FileKind {
    File,
    Directory,
    Missing,
}

/// A file that the machine may serve, relative to the served directory.
#[derive(Clone, Copy, Debug, PartialEq, Eq)]
pub enum Location {
    /// The requested path (`index.html` for an empty path).
    Requested,
    /// `index.html` inside the requested path.
    RequestedIndex,
    /// `index.html` of the served directory.
    RootIndex,
}

/// The answer to a request.
#[derive(Debug, PartialEq, Eq)]
pub enum Reply {
    NotFound,
    Forbidden,
    InternalError,
    File { data: Vec<u8>, content_type: &'static str, cache_control: &'static str },
}

/// What the machine asks the caller to do next.
#[derive(Debug, PartialEq, Eq)]
pub enum Action {
    /// Report whether the location is a file, a directory or neither.
    Inspect(Location),
    /// Report whether the location is a file.
    CheckFile(Location),
    /// Canonicalize the location and report its components.
    Canonicalize(Location),
    /// Canonicalize the served directory and report its components.
    CanonicalizeRoot,
    /// Read the whole file and report its bytes and its extension.
    Read(Location),
    /// Send the reply; the exchange is over.
    Respond(Reply),
}

/// The caller's answer to the last action.
#[derive(Debug, PartialEq, Eq)]
pub enum Event {
    Kind(FileKind),
    IsFile(bool),
    /// The canonical path's components as bytes, or `None` on failure.
    Canonical(Option<Vec<Vec<u8>>>),
    /// The canonical root's components as bytes, or `None` on failure.
    RootCanonical(Option<Vec<Vec<u8>>>),
    /// The file's bytes (`None` when opening or reading failed) and the
    /// extension of its path (empty when it has none).
    Loaded { data: Option<Vec<u8>>, extension: String },
}

/// Where the exchange stands.
#[derive(Debug, PartialEq, Eq)]
pub enum Phase {
    Inspecting,
    CheckingDirIndex,
    Confirming(Location),
    Resolving(Location),
    CheckingRoot(Location, Vec<Vec<u8>>),
    Reading(Location),
    Done,
}

/// One request being answered.
#[derive(Debug)]
pub struct Exchange {
    url_path: String,
    relative: String,
    phase: Phase,
}

/// A reply as the contracts see it.
pub enum ReplyView {
    NotFound,
    Forbidden,
    InternalError,
    File { data: Seq<u8>, content_type: Seq<char>, cache_control: Seq<char> },
}

/// An action as the contracts see it.
pub enum ActionView {
    Inspect(Location),
    CheckFile(Location),
    Canonicalize(Location),
    CanonicalizeRoot,
    Read(Location),
    Respond(ReplyView),
}

/// An event as the contracts see it.
pub enum EventView {
    Kind(FileKind),
    IsFile(bool),
    Canonical(Option<Seq<Seq<u8>>>),
    RootCanonical(Option<Seq<Seq<u8>>>),
    Loaded(Option<Seq<u8>>, Seq<char>),
}

/// A phase as the contracts see it.
pub enum PhaseView {
    Inspecting,
    CheckingDirIndex,
    Confirming(Location),
    Resolving(Location),
    CheckingRoot(Location, Seq<Seq<u8>>),
    Reading(Location),
    Done,
}

/// An exchange as the contracts see it.
pub struct ExchangeView {
    pub url_path: Seq<char>,
    pub relative: Seq<char>,
    pub phase: PhaseView,
}

/// A path given as components, each as bytes.
pub open spec fn components(v: Vec<Vec<u8>>) -> Seq<Seq<u8>> {
    v@.map_values(|c: Vec<u8>| c@)
}

/// An optional path given as components.
pub open spec fn components_opt(v: Option<Vec<Vec<u8>>>) -> Option<Seq<Seq<u8>>> {
    match v {
        Some(c) => Some(components(c)),
        None => None,
    }
}

impl View for Reply {
    type V = ReplyView;

    open spec fn view(&self) -> ReplyView {
        match self {
            Reply::NotFound => ReplyView::NotFound,
            Reply::Forbidden => ReplyView::Forbidden,
            Reply::InternalError => ReplyView::InternalError,
            Reply::File { data, content_type, cache_control } => ReplyView::File {
                data: data@,
                content_type: content_type@,
                cache_control: cache_control@,
            },
        }
    }
}

impl View for Action {
    type V = ActionView;

    open spec fn view(&self) -> ActionView {
        match self {
            Action::Inspect(l) => ActionView::Inspect(*l),
            Action::CheckFile(l) => ActionView::CheckFile(*l),
            Action::Canonicalize(l) => ActionView::Canonicalize(*l),
            Action::CanonicalizeRoot => ActionView::CanonicalizeRoot,
            Action::Read(l) => ActionView::Read(*l),
            Action::Respond(r) => ActionView::Respond(r@),
        }
    }
}

impl View for Event {
    type V = EventView;

    open spec fn view(&self) -> EventView {
        match self {
            Event::Kind(k) => EventView::Kind(*k),
            Event::IsFile(b) => EventView::IsFile(*b),
            Event::Canonical(c) => EventView::Canonical(components_opt(*c)),
            Event::RootCanonical(c) => EventView::RootCanonical(components_opt(*c)),
            Event::Loaded { data, extension } => EventView::Loaded(
                match data {
                    Some(d) => Some(d@),
                    None => None,
                },
                extension@,
            ),
        }
    }
}

impl View for Phase {
    type V = PhaseView;

    open spec fn view(&self) -> PhaseView {
        match self {
            Phase::Inspecting => PhaseView::Inspecting,
            Phase::CheckingDirIndex => PhaseView::CheckingDirIndex,
            Phase::Confirming(l) => PhaseView::Confirming(*l),
            Phase::Resolving(l) => PhaseView::Resolving(*l),
            Phase::CheckingRoot(l, c) => PhaseView::CheckingRoot(*l, components(*c)),
            Phase::Reading(l) => PhaseView::Reading(*l),
            Phase::Done => PhaseView::Done,
        }
    }
}

impl View for Exchange {
    type V = ExchangeView;

    closed spec fn view(&self) -> ExchangeView {
        ExchangeView { url_path: self.url_path@, relative: self.relative@, phase: self.phase@ }
    }
}

/// Whether `path` lies inside `root`: whole components, `root`'s first.
pub open spec fn is_within(root: Seq<Seq<u8>>, path: Seq<Seq<u8>>) -> bool {
    root.len() <= path.len() && path.subrange(0, root.len() as int) == root
}

/// Whether an event answers the action that the phase waits on.
pub open spec fn answers(phase: PhaseView, event: EventView) -> bool {
    match (phase, event) {
        (PhaseView::Inspecting, EventView::Kind(_)) => true,
        (PhaseView::CheckingDirIndex, EventView::IsFile(_)) => true,
        (PhaseView::Confirming(_), EventView::IsFile(_)) => true,
        (PhaseView::Resolving(_), EventView::Canonical(_)) => true,
        (PhaseView::CheckingRoot(_, _), EventView::RootCanonical(_)) => true,
        (PhaseView::Reading(_), EventView::Loaded(_, _)) => true,
        _ => false,
    }
}

/// The exchange that a request URL opens, and its first action.
pub open spec fn spec_begin(url: Seq<char>) -> (ExchangeView, ActionView) {
    (
        ExchangeView {
            url_path: spec_request_path(url),
            relative: spec_relative_path(url),
            phase: PhaseView::Inspecting,
        },
        ActionView::Inspect(Location::Requested),
    )
}

/// One transition: the exchange after `event`, and the next action.
pub open spec fn spec_step(
    ex: ExchangeView,
    table: Seq<(Seq<char>, Seq<char>)>,
    event: EventView,
) -> (ExchangeView, ActionView) {
    let to = |p: PhaseView| ExchangeView { phase: p, ..ex };
    match (ex.phase, event) {
        (PhaseView::Inspecting, EventView::Kind(kind)) => match kind {
            FileKind::File => (to(PhaseView::Confirming(Location::Requested)), ActionView::CheckFile(Location::Requested)),
            FileKind::Directory => (to(PhaseView::CheckingDirIndex), ActionView::CheckFile(Location::RequestedIndex)),
            FileKind::Missing => (to(PhaseView::Confirming(Location::RootIndex)), ActionView::CheckFile(Location::RootIndex)),
        },
        (PhaseView::CheckingDirIndex, EventView::IsFile(is_file)) => {
            let loc = if is_file { Location::RequestedIndex } else { Location::RootIndex };
            (to(PhaseView::Confirming(loc)), ActionView::CheckFile(loc))
        },
        (PhaseView::Confirming(loc), EventView::IsFile(is_file)) => if is_file {
            (to(PhaseView::Resolving(loc)), ActionView::Canonicalize(loc))
        } else {
            (to(PhaseView::Done), ActionView::Respond(ReplyView::NotFound))
        },
        (PhaseView::Resolving(loc), EventView::Canonical(c)) => match c {
            Some(path) => (to(PhaseView::CheckingRoot(loc, path)), ActionView::CanonicalizeRoot),
            None => (to(PhaseView::Done), ActionView::Respond(ReplyView::NotFound)),
        },
        (PhaseView::CheckingRoot(loc, path), EventView::RootCanonical(r)) => match r {
            Some(root) if !is_within(root, path) => (to(PhaseView::Done), ActionView::Respond(ReplyView::Forbidden)),
            _ => (to(PhaseView::Reading(loc)), ActionView::Read(loc)),
        },
        (PhaseView::Reading(loc), EventView::Loaded(data, ext)) => match data {
            Some(d) => (
                to(PhaseView::Done),
                ActionView::Respond(ReplyView::File {
                    data: d,
                    content_type: spec_content_type(table, ext),
                    cache_control: spec_cache_control(ext, ex.url_path),
                }),
            ),
            None => (to(PhaseView::Done), ActionView::Respond(ReplyView::InternalError)),
        },
        _ => (ex, ActionView::CanonicalizeRoot),
    }
}

/// The path segments, joined in order onto the served directory, that a
/// location names for a request with relative path `relative`.
pub open spec fn spec_segments(relative: Seq<char>, loc: Location) -> Seq<Seq<char>> {
    let requested = if relative.len() == 0 { seq!["index.html"@] } else { seq![relative] };
    match loc {
        Location::Requested => requested,
        Location::RequestedIndex => requested.push("index.html"@),
        Location::RootIndex => seq!["index.html"@],
    }
}

/// The HTTP status code of a reply.
pub open spec fn spec_status(reply: ReplyView) -> u16 {
    match reply {
        ReplyView::NotFound => 404,
        ReplyView::Forbidden => 403,
        ReplyView::InternalError => 500,
        ReplyView::File { .. } => 200,
    }
}

/// The text body of an error reply (`None` for a file).
pub open spec fn spec_message(reply: ReplyView) -> Option<Seq<char>> {
    match reply {
        ReplyView::NotFound => Some("Not Found"@),
        ReplyView::Forbidden => Some("Forbidden"@),
        ReplyView::InternalError => Some("Internal Server Error"@),
        ReplyView::File { .. } => None,
    }
}

/// The headers that a reply adds: for a file its content type, caching
/// policy and `Access-Control-Allow-Origin: *`; none for an error reply.
pub open spec fn spec_header_fields(reply: ReplyView) -> Seq<(Seq<char>, Seq<char>)> {
    match reply {
        ReplyView::File { content_type, cache_control, .. } => seq![
            ("Content-Type"@, content_type),
            ("Cache-Control"@, cache_control),
            ("Access-Control-Allow-Origin"@, "*"@),
        ],
        _ => Seq::empty(),
    }
}

/// How many more events a phase can take before the reply at most.
pub open spec fn remaining_steps(p: PhaseView) -> nat {
    match p {
        PhaseView::Inspecting => 6,
        PhaseView::CheckingDirIndex => 5,
        PhaseView::Confirming(_) => 4,
        PhaseView::Resolving(_) => 3,
        PhaseView::CheckingRoot(_, _) => 2,
        PhaseView::Reading(_) => 1,
        PhaseView::Done => 0,
    }
}

/// The exchange after the first `n` events of `events`.
pub open spec fn exchange_after(
    ex: ExchangeView,
    table: Seq<(Seq<char>, Seq<char>)>,
    events: Seq<EventView>,
    n: nat,
) -> ExchangeView
    decreases n,
{
    if n == 0 {
        ex
    } else {
        spec_step(exchange_after(ex, table, events, (n - 1) as nat), table, events[n - 1]).0
    }
}

/// The action that the `n`-th event (counting from 1) leads to.
pub open spec fn action_after(
    ex: ExchangeView,
    table: Seq<(Seq<char>, Seq<char>)>,
    events: Seq<EventView>,
    n: nat,
) -> ActionView {
    spec_step(exchange_after(ex, table, events, (n - 1) as nat), table, events[n - 1]).1
}

/// Whether each event answers the action the exchange waits on at that
/// point.
pub open spec fn follows_protocol(
    ex: ExchangeView,
    table: Seq<(Seq<char>, Seq<char>)>,
    events: Seq<EventView>,
) -> bool {
    forall|n: nat| n < events.len() ==> answers(#[trigger] exchange_after(ex, table, events, n).phase, events[n as int])
}

/// Law: an exchange answers with a reply exactly when it is over; after
/// the reply it accepts no further event.
pub proof fn law_reply_ends_exchange(ex: ExchangeView, table: Seq<(Seq<char>, Seq<char>)>, event: EventView)
    requires
        answers(ex.phase, event),
    ensures
        (spec_step(ex, table, event).1 is Respond) <==> (spec_step(ex, table, event).0.phase is Done),
        forall|e: EventView| !#[trigger] answers(PhaseView::Done, e),
{
}

/// Law: an exchange that has not answered yet always waits on some answer,
/// so it cannot get stuck before its reply.
pub proof fn law_unfinished_exchange_can_proceed(ex: ExchangeView)
    requires
        !(ex.phase is Done),
    ensures
        exists|e: EventView| #[trigger] answers(ex.phase, e),
{
    match ex.phase {
        PhaseView::Inspecting => assert(answers(ex.phase, EventView::Kind(FileKind::File))),
        PhaseView::CheckingDirIndex => assert(answers(ex.phase, EventView::IsFile(true))),
        PhaseView::Confirming(_) => assert(answers(ex.phase, EventView::IsFile(true))),
        PhaseView::Resolving(_) => assert(answers(ex.phase, EventView::Canonical(None))),
        PhaseView::CheckingRoot(_, _) => assert(answers(ex.phase, EventView::RootCanonical(None))),
        PhaseView::Reading(_) => assert(answers(ex.phase, EventView::Loaded(None, Seq::empty()))),
        PhaseView::Done => {},
    }
}

/// Each accepted event brings the exchange closer to its reply.
pub proof fn lemma_step_progresses(ex: ExchangeView, table: Seq<(Seq<char>, Seq<char>)>, event: EventView)
    requires
        answers(ex.phase, event),
    ensures
        remaining_steps(spec_step(ex, table, event).0.phase) < remaining_steps(ex.phase),
{
}

proof fn lemma_steps_bound(
    ex: ExchangeView,
    table: Seq<(Seq<char>, Seq<char>)>,
    events: Seq<EventView>,
    n: nat,
)
    requires
        follows_protocol(ex, table, events),
        n <= events.len(),
    ensures
        remaining_steps(exchange_after(ex, table, events, n).phase) + n <= remaining_steps(ex.phase),
    decreases n,
{
    if n > 0 {
        let m = (n - 1) as nat;
        lemma_steps_bound(ex, table, events, m);
        assert(answers(exchange_after(ex, table, events, m).phase, events[m as int]));
        lemma_step_progresses(exchange_after(ex, table, events, m), table, events[m as int]);
    }
}

/// Law: whatever the file system answers, a request is answered after at
/// most six events.
pub proof fn law_exchange_is_short(url: Seq<char>, table: Seq<(Seq<char>, Seq<char>)>, events: Seq<EventView>)
    requires
        follows_protocol(spec_begin(url).0, table, events),
    ensures
        events.len() <= 6,
{
    let ex = spec_begin(url).0;
    if events.len() > 0 {
        let m = (events.len() - 1) as nat;
        lemma_steps_bound(ex, table, events, m);
        assert(answers(exchange_after(ex, table, events, m).phase, events[m as int]));
    }
}

/// Law: a file is served only after the caller reported it to be a file,
/// reported its canonical path, and reported a canonical root inside which
/// that path lies, or reported that the root could not be canonicalized.
/// The `n`-th event (counting from 1) is the one answered by the file.
pub proof fn law_served_file_passed_checks(
    url: Seq<char>,
    table: Seq<(Seq<char>, Seq<char>)>,
    events: Seq<EventView>,
    n: nat,
)
    requires
        follows_protocol(spec_begin(url).0, table, events),
        1 <= n <= events.len(),
        action_after(spec_begin(url).0, table, events, n) matches ActionView::Respond(ReplyView::File { .. }),
    ensures
        n >= 4,
        events[n - 4] == EventView::IsFile(true),
        events[n - 3] matches EventView::Canonical(Some(path)) && (
            events[n - 2] matches EventView::RootCanonical(root) && (root matches Some(r) ==> is_within(r, path))),
        events[n - 1] matches EventView::Loaded(Some(_), _),
{
    let ex = spec_begin(url).0;
    let s = |k: nat| exchange_after(ex, table, events, k);
    assert(answers(s((n - 1) as nat).phase, events[n - 1]));
    assert(s((n - 1) as nat).phase is Reading);
    assert(n - 1 != 0);
    assert(answers(s((n - 2) as nat).phase, events[n - 2]));
    assert(s((n - 2) as nat).phase is CheckingRoot);
    assert(n - 2 != 0);
    assert(answers(s((n - 3) as nat).phase, events[n - 3]));
    assert(s((n - 3) as nat).phase is Resolving);
    assert(n - 3 != 0);
    assert(answers(s((n - 4) as nat).phase, events[n - 4]));
}

/// The location an action names, if any.
pub open spec fn action_location(a: ActionView) -> Option<Location> {
    match a {
        ActionView::Inspect(l) => Some(l),
        ActionView::CheckFile(l) => Some(l),
        ActionView::Canonicalize(l) => Some(l),
        ActionView::Read(l) => Some(l),
        _ => None,
    }
}

/// The location a phase is about, if any.
pub open spec fn phase_location(p: PhaseView) -> Option<Location> {
    match p {
        PhaseView::Inspecting => Some(Location::Requested),
        PhaseView::CheckingDirIndex => Some(Location::RequestedIndex),
        PhaseView::Confirming(l) => Some(l),
        PhaseView::Resolving(l) => Some(l),
        PhaseView::CheckingRoot(l, _) => Some(l),
        PhaseView::Reading(l) => Some(l),
        PhaseView::Done => None,
    }
}

/// The file a request is answered from, by the caller's first answers: the
/// requested path when it is a file; the index of the requested directory
/// when that is a file; otherwise the root `index.html`.
pub open spec fn chosen_location(events: Seq<EventView>) -> Location {
    match events[0] {
        EventView::Kind(FileKind::File) => Location::Requested,
        EventView::Kind(FileKind::Directory) => if events[1] == EventView::IsFile(true) {
            Location::RequestedIndex
        } else {
            Location::RootIndex
        },
        _ => Location::RootIndex,
    }
}

/// Law: each step acts on the location that the exchange then waits on, and
/// once a file has been chosen the exchange keeps to it: an action that names
/// a location names the one the next phase is about, and a phase past the
/// directory check hands its location on unchanged until the reply.
pub proof fn law_step_keeps_its_location(ex: ExchangeView, table: Seq<(Seq<char>, Seq<char>)>, event: EventView)
    requires
        answers(ex.phase, event),
    ensures
        action_location(spec_step(ex, table, event).1) is Some ==> action_location(spec_step(ex, table, event).1)
            == phase_location(spec_step(ex, table, event).0.phase),
        !(ex.phase is Inspecting) && !(ex.phase is CheckingDirIndex) && !(spec_step(ex, table, event).0.phase is Done)
            ==> phase_location(spec_step(ex, table, event).0.phase) == phase_location(ex.phase),
{
}

proof fn lemma_phase_on_chosen(url: Seq<char>, table: Seq<(Seq<char>, Seq<char>)>, events: Seq<EventView>, k: nat)
    requires
        follows_protocol(spec_begin(url).0, table, events),
        1 <= k <= events.len(),
    ensures
        ({
            let p = exchange_after(spec_begin(url).0, table, events, k).phase;
            ||| (k == 1 && events[0] == EventView::Kind(FileKind::Directory) && p is CheckingDirIndex)
            ||| p is Done
            ||| (phase_location(p) == Some(chosen_location(events)) && !(p is Inspecting) && !(p is CheckingDirIndex))
        }),
    decreases k,
{
    let ex = spec_begin(url).0;
    if k == 1 {
        assert(exchange_after(ex, table, events, 0) == ex);
        assert(answers(ex.phase, events[0]));
        assert(exchange_after(ex, table, events, 1) == spec_step(ex, table, events[0]).0);
    } else {
        let m = (k - 1) as nat;
        lemma_phase_on_chosen(url, table, events, m);
        let prev = exchange_after(ex, table, events, m);
        assert(answers(prev.phase, events[m as int]));
        law_step_keeps_its_location(prev, table, events[m as int]);
        assert(exchange_after(ex, table, events, k) == spec_step(prev, table, events[m as int]).0);
        if m == 1 && events[0] == EventView::Kind(FileKind::Directory) && prev.phase is CheckingDirIndex {
            assert(events[1] is IsFile);
        }
    }
}

/// Law: from the answer to the first inspection on, every action that names
/// a location names the file the request is answered from
/// (`chosen_location`); only the check of a directory's own index, right
/// after the path turned out to be a directory, names that index instead.
pub proof fn law_actions_name_the_chosen_file(
    url: Seq<char>,
    table: Seq<(Seq<char>, Seq<char>)>,
    events: Seq<EventView>,
    k: nat,
)
    requires
        follows_protocol(spec_begin(url).0, table, events),
        1 <= k <= events.len(),
        action_location(action_after(spec_begin(url).0, table, events, k)) is Some,
        !(k == 1 && events[0] == EventView::Kind(FileKind::Directory)),
    ensures
        action_location(action_after(spec_begin(url).0, table, events, k)) == Some(chosen_location(events)),
{
    let ex = spec_begin(url).0;
    let m = (k - 1) as nat;
    let prev = exchange_after(ex, table, events, m);
    assert(answers(prev.phase, events[m as int]));
    law_step_keeps_its_location(prev, table, events[m as int]);
    lemma_phase_on_chosen(url, table, events, k);
}

/// Law (single-page fallback): when the requested path is reported missing,
/// every later action that names a location names the root `index.html`.
pub proof fn law_missing_path_serves_root_index(
    url: Seq<char>,
    table: Seq<(Seq<char>, Seq<char>)>,
    events: Seq<EventView>,
    k: nat,
)
    requires
        follows_protocol(spec_begin(url).0, table, events),
        1 <= k <= events.len(),
        events[0] == EventView::Kind(FileKind::Missing),
        action_location(action_after(spec_begin(url).0, table, events, k)) is Some,
    ensures
        action_location(action_after(spec_begin(url).0, table, events, k)) == Some(Location::RootIndex),
{
    law_actions_name_the_chosen_file(url, table, events, k);
}

fn bytes_eq(a: &Vec<u8>, b: &Vec<u8>) -> (r: bool)
    ensures
        r == (a@ == b@),
{
    if a.len() != b.len() {
        return false;
    }
    let n = a.len();
    let mut i: usize = 0;
    while i < n
        invariant
            n == a@.len(),
            n == b@.len(),
            i <= n,
            forall|j: int| 0 <= j < i ==> a@[j] == b@[j],
        decreases n - i,
    {
        if a[i] != b[i] {
            return false;
        }
        i = i + 1;
    }
    assert(a@ =~= b@);
    true
}

/// Whether canonical `path` lies inside canonical `root`, comparing whole
/// components (as `Path::starts_with` does).
pub fn path_within(root: &Vec<Vec<u8>>, path: &Vec<Vec<u8>>) -> (r: bool)
    ensures
        r == is_within(components(*root), components(*path)),
{
    let ghost rv = components(*root);
    let ghost pv = components(*path);
    if root.len() > path.len() {
        return false;
    }
    let n = root.len();
    let mut i: usize = 0;
    while i < n
        invariant
            n == root@.len(),
            n <= path@.len(),
            rv == components(*root),
            pv == components(*path),
            i <= n,
            forall|j: int| 0 <= j < i ==> rv[j] == pv[j],
        decreases n - i,
    {
        if !bytes_eq(&root[i], &path[i]) {
            assert(pv.subrange(0, n as int)[i as int] != rv[i as int]);
            return false;
        }
        i = i + 1;
    }
    assert(pv.subrange(0, n as int) =~= rv);
    true
}

impl Reply {
    /// The HTTP status code of the reply.
    pub fn status(&self) -> (r: u16)
        ensures
            r == spec_status(self@),
    {
        match self {
            Reply::NotFound => 404,
            Reply::Forbidden => 403,
            Reply::InternalError => 500,
            Reply::File { .. } => 200,
        }
    }

    /// The text body of an error reply; `None` for a file.
    pub fn message(&self) -> (r: Option<&'static str>)
        ensures
            r matches Some(m) ==> spec_message(self@) == Some(m@),
            r is None ==> spec_message(self@) is None,
    {
        match self {
            Reply::NotFound => Some("Not Found"),
            Reply::Forbidden => Some("Forbidden"),
            Reply::InternalError => Some("Internal Server Error"),
            Reply::File { .. } => None,
        }
    }

    /// The header fields the reply adds, as name and value.
    pub fn header_fields(&self) -> (r: Vec<(&'static str, &'static str)>)
        ensures
            r@.map_values(|f: (&'static str, &'static str)| (f.0@, f.1@)) == spec_header_fields(self@),
    {
        let mut r: Vec<(&'static str, &'static str)> = Vec::new();
        match self {
            Reply::File { content_type, cache_control, .. } => {
                r.push(("Content-Type", *content_type));
                r.push(("Cache-Control", *cache_control));
                r.push(("Access-Control-Allow-Origin", "*"));
            },
            _ => {},
        }
        assert(r@.map_values(|f: (&'static str, &'static str)| (f.0@, f.1@)) =~= spec_header_fields(self@));
        r
    }
}

impl Exchange {
    /// Opens the exchange for a request URL; the first action inspects the
    /// requested path.
    pub fn begin(url: &str) -> (r: (Exchange, Action))
        ensures
            (r.0@, r.1@) == spec_begin(url@),
    {
        let url_path = request_path(url).to_owned();
        let relative = relative_path(url);
        (Exchange { url_path, relative, phase: Phase::Inspecting }, Action::Inspect(Location::Requested))
    }

    /// The path of the request URL, before any query string.
    pub fn url_path(&self) -> (r: &str)
        ensures
            r@ == self@.url_path,
    {
        self.url_path.as_str()
    }

    /// The decoded request path, relative to the served directory.
    pub fn relative(&self) -> (r: &str)
        ensures
            r@ == self@.relative,
    {
        self.relative.as_str()
    }

    /// The path segments to join onto the served directory for `loc`.
    pub fn segments(&self, loc: Location) -> (r: Vec<String>)
        ensures
            r@.map_values(|s: String| s@) == spec_segments(self@.relative, loc),
    {
        let mut r: Vec<String> = Vec::new();
        match loc {
            Location::RootIndex => {
                r.push("index.html".to_owned());
            },
            _ => {
                if self.relative.as_str().is_empty() {
                    r.push("index.html".to_owned());
                } else {
                    r.push(self.relative.clone());
                }
                match loc {
                    Location::RequestedIndex => {
                        r.push("index.html".to_owned());
                    },
                    _ => {},
                }
            },
        }
        assert(r@.map_values(|s: String| s@) =~= spec_segments(self@.relative, loc));
        r
    }

    /// Whether the exchange has answered the request.
    pub fn is_done(&self) -> (r: bool)
        ensures
            r == (self@.phase is Done),
    {
        match self.phase {
            Phase::Done => true,
            _ => false,
        }
    }

    /// Whether `event` answers the action this exchange waits on.
    pub fn accepts(&self, event: &Event) -> (r: bool)
        ensures
            r == answers(self@.phase, event@),
    {
        match (&self.phase, event) {
            (Phase::Inspecting, Event::Kind(_)) => true,
            (Phase::CheckingDirIndex, Event::IsFile(_)) => true,
            (Phase::Confirming(_), Event::IsFile(_)) => true,
            (Phase::Resolving(_), Event::Canonical(_)) => true,
            (Phase::CheckingRoot(_, _), Event::RootCanonical(_)) => true,
            (Phase::Reading(_), Event::Loaded { .. }) => true,
            _ => false,
        }
    }

    /// Takes the caller's answer to the last action and gives the next one.
    pub fn step(self, map: &MimeMap, event: Event) -> (r: (Exchange, Action))
        requires
            answers(self@.phase, event@),
        ensures
            (r.0@, r.1@) == spec_step(self@, map@, event@),
    {
        let Exchange { url_path, relative, phase } = self;
        match phase {
            Phase::Inspecting => {
                let (next, action) = match event {
                    Event::Kind(FileKind::File) => (Phase::Confirming(Location::Requested), Action::CheckFile(Location::Requested)),
                    Event::Kind(FileKind::Directory) => (Phase::CheckingDirIndex, Action::CheckFile(Location::RequestedIndex)),
                    _ => (Phase::Confirming(Location::RootIndex), Action::CheckFile(Location::RootIndex)),
                };
                (Exchange { url_path, relative, phase: next }, action)
            },
            Phase::CheckingDirIndex => {
                let is_file = match event {
                    Event::IsFile(b) => b,
                    _ => false,
                };
                let loc = if is_file { Location::RequestedIndex } else { Location::RootIndex };
                (Exchange { url_path, relative, phase: Phase::Confirming(loc) }, Action::CheckFile(loc))
            },
            Phase::Confirming(loc) => {
                let is_file = match event {
                    Event::IsFile(b) => b,
                    _ => false,
                };
                if is_file {
                    (Exchange { url_path, relative, phase: Phase::Resolving(loc) }, Action::Canonicalize(loc))
                } else {
                    (Exchange { url_path, relative, phase: Phase::Done }, Action::Respond(Reply::NotFound))
                }
            },
            Phase::Resolving(loc) => {
                match event {
                    Event::Canonical(Some(path)) => (
                        Exchange { url_path, relative, phase: Phase::CheckingRoot(loc, path) },
                        Action::CanonicalizeRoot,
                    ),
                    _ => (Exchange { url_path, relative, phase: Phase::Done }, Action::Respond(Reply::NotFound)),
                }
            },
            Phase::CheckingRoot(loc, path) => {
                let inside = match &event {
                    Event::RootCanonical(Some(root)) => path_within(root, &path),
                    _ => true,
                };
                if inside {
                    (Exchange { url_path, relative, phase: Phase::Reading(loc) }, Action::Read(loc))
                } else {
                    (Exchange { url_path, relative, phase: Phase::Done }, Action::Respond(Reply::Forbidden))
                }
            },
            Phase::Reading(loc) => {
                match event {
                    Event::Loaded { data: Some(data), extension } => {
                        let ct = content_type(map, extension.as_str());
                        let cc = cache_control(extension.as_str(), url_path.as_str());
                        (
                            Exchange { url_path, relative, phase: Phase::Done },
                            Action::Respond(Reply::File { data, content_type: ct, cache_control: cc }),
                        )
                    },
                    _ => (Exchange { url_path, relative, phase: Phase::Done }, Action::Respond(Reply::InternalError)),
                }
            },
            Phase::Done => {
                (Exchange { url_path, relative, phase: Phase::Done }, Action::CanonicalizeRoot)
            },
        }
    }
}

} // verus!
