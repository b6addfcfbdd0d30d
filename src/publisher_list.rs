//! The registry of publishers that may publish: a versioned aggregate that
//! turns commands into events and applies events in order.
use vstd::prelude::*;
use vstd::string::*;
use crate::uri::{is_rsync_uri, push_str, RsyncUri};

verus! {

//------------ Models --------------------------------------------------------

/// What a publisher is, as plain values.
pub struct PublisherView {
    pub name: Seq<char>,
    pub base_uri: Seq<char>,
    pub id_cert: Seq<u8>,
}

/// The state of a registry: its version, its base URI and its publishers in
/// the order in which they were added.
pub struct PublisherListView {
    pub version: nat,
    pub base_uri: Seq<char>,
    pub publishers: Seq<PublisherView>,
}

pub enum EventKindView {
    Added(PublisherView),
    CertUpdated(Seq<char>),
    Removed(Seq<char>),
}

pub struct VersionedEventView {
    pub version: nat,
    pub event: EventKindView,
}

pub enum CommandView {
    Add { name: Seq<char>, id_cert: Seq<u8> },
    Remove(Seq<char>),
}

pub struct VersionedCommandView {
    pub version: nat,
    pub command: CommandView,
}

pub enum ErrorView {
    VersionConflict(nat, nat),
    ForwardSlashInHandle(Seq<char>),
    UriError,
    DuplicatePublisher(Seq<char>),
    UnknownPublisher(Seq<char>),
}

/// A fresh registry below `base_uri`.
pub open spec fn fresh(base_uri: Seq<char>) -> PublisherListView {
    PublisherListView { version: 0, base_uri, publishers: Seq::empty() }
}

/// Some publisher in `ps` is called `name`.
pub open spec fn has_name(ps: Seq<PublisherView>, name: Seq<char>) -> bool {
    exists|i: int| 0 <= i < ps.len() && (#[trigger] ps[i]).name == name
}

/// No two publishers in `ps` share a name.
pub open spec fn names_unique(ps: Seq<PublisherView>) -> bool {
    forall|i: int, j: int|
        0 <= i < ps.len() && 0 <= j < ps.len() && i != j ==> (#[trigger] ps[i]).name
            != (#[trigger] ps[j]).name
}

/// The position of the publisher called `name` in `ps`.
pub open spec fn index_of(ps: Seq<PublisherView>, name: Seq<char>) -> int {
    choose|i: int| 0 <= i < ps.len() && (#[trigger] ps[i]).name == name
}

/// The base URI that a publisher called `name` gets below `base`.
pub open spec fn publisher_base_uri(base: Seq<char>, name: Seq<char>) -> Seq<char> {
    base + name
}

/// Why applying `e` to `s` fails, if it does.
pub open spec fn event_error(s: PublisherListView, e: VersionedEventView) -> Option<ErrorView> {
    if e.version != s.version {
        Some(ErrorView::VersionConflict(s.version, e.version))
    } else {
        match e.event {
            EventKindView::Added(p) => if has_name(s.publishers, p.name) {
                Some(ErrorView::DuplicatePublisher(p.name))
            } else {
                None
            },
            EventKindView::Removed(n) => if has_name(s.publishers, n) {
                None
            } else {
                Some(ErrorView::UnknownPublisher(n))
            },
            EventKindView::CertUpdated(_) => None,
        }
    }
}

/// Whether `s` accepts `e` as its next event.
pub open spec fn accepts(s: PublisherListView, e: VersionedEventView) -> bool {
    event_error(s, e) is None
}

/// The state after `s` has taken `e` (meant for an `e` that `s` accepts).
pub open spec fn next(s: PublisherListView, e: VersionedEventView) -> PublisherListView {
    let publishers = match e.event {
        EventKindView::Added(p) => s.publishers.push(p),
        EventKindView::Removed(n) => s.publishers.remove(index_of(s.publishers, n)),
        EventKindView::CertUpdated(_) => s.publishers,
    };
    PublisherListView { version: s.version + 1, base_uri: s.base_uri, publishers }
}

/// The state reached from `s` by taking `es` in order, or `None` where one of
/// them is refused.
pub open spec fn replay(s: PublisherListView, es: Seq<VersionedEventView>) -> Option<PublisherListView>
    decreases es.len(),
{
    if es.len() == 0 {
        Some(s)
    } else {
        match replay(s, es.drop_last()) {
            Some(t) => if accepts(t, es.last()) {
                Some(next(t, es.last()))
            } else {
                None
            },
            None => None,
        }
    }
}

/// The event that command `c` yields on state `s`, or why it is refused.
pub open spec fn command_outcome(s: PublisherListView, c: VersionedCommandView) -> Result<
    VersionedEventView,
    ErrorView,
> {
    if c.version != s.version {
        Err(ErrorView::VersionConflict(s.version, c.version))
    } else {
        match c.command {
            CommandView::Add { name, id_cert } => {
                let uri = publisher_base_uri(s.base_uri, name);
                if name.contains('/') {
                    Err(ErrorView::ForwardSlashInHandle(name))
                } else if !is_rsync_uri(uri) {
                    Err(ErrorView::UriError)
                } else if has_name(s.publishers, name) {
                    Err(ErrorView::DuplicatePublisher(name))
                } else {
                    Ok(
                        VersionedEventView {
                            version: s.version,
                            event: EventKindView::Added(PublisherView { name, base_uri: uri, id_cert }),
                        },
                    )
                }
            },
            CommandView::Remove(name) => if has_name(s.publishers, name) {
                Ok(VersionedEventView { version: s.version, event: EventKindView::Removed(name) })
            } else {
                Err(ErrorView::UnknownPublisher(name))
            },
        }
    }
}

/// The state reached from `s` by running the commands `cs` in order, or
/// `None` where one of them is refused.
pub open spec fn run_commands(s: PublisherListView, cs: Seq<VersionedCommandView>) -> Option<
    PublisherListView,
>
    decreases cs.len(),
{
    if cs.len() == 0 {
        Some(s)
    } else {
        match run_commands(s, cs.drop_last()) {
            Some(t) => match command_outcome(t, cs.last()) {
                Ok(e) => Some(next(t, e)),
                Err(_) => None,
            },
            None => None,
        }
    }
}

//------------ Publisher -----------------------------------------------------

/// A publisher that is allowed to publish below its base URI. Its identity
/// certificate is held in its DER encoding.
pub struct Publisher {
    name: String,
    base_uri: RsyncUri,
    id_cert: Vec<u8>,
}

impl View for Publisher {
    type V = PublisherView;

    closed spec fn view(&self) -> PublisherView {
        PublisherView { name: self.name@, base_uri: self.base_uri@, id_cert: self.id_cert@ }
    }
}

impl Publisher {
    pub fn name(&self) -> (r: &String)
        ensures
            r@ == self@.name,
    {
        &self.name
    }

    pub fn base_uri(&self) -> (r: &RsyncUri)
        ensures
            r@ == self@.base_uri,
    {
        &self.base_uri
    }

    pub fn id_cert(&self) -> (r: &Vec<u8>)
        ensures
            r@ == self@.id_cert,
    {
        &self.id_cert
    }

    pub fn clone(&self) -> (r: Publisher)
        ensures
            r@ == self@,
    {
        let id_cert = self.id_cert.clone();
        assert(id_cert@ =~= self.id_cert@);
        Publisher { name: self.name.clone(), base_uri: self.base_uri.clone(), id_cert }
    }
}

//------------ PublisherRequest ----------------------------------------------

/// A request to be added as a publisher: an optional tag, the handle that
/// names the publisher, and the DER encoding of its identity certificate.
pub struct PublisherRequest {
    tag: Option<String>,
    publisher_handle: String,
    id_cert: Vec<u8>,
}

impl PublisherRequest {
    pub closed spec fn handle_spec(&self) -> Seq<char> {
        self.publisher_handle@
    }

    pub closed spec fn id_cert_spec(&self) -> Seq<u8> {
        self.id_cert@
    }

    pub fn new(tag: Option<&str>, publisher_handle: &str, id_cert: Vec<u8>) -> (r: PublisherRequest)
        ensures
            r.handle_spec() == publisher_handle@,
            r.id_cert_spec() == id_cert@,
    {
        let tag = match tag {
            Some(t) => Some(t.to_owned()),
            None => None,
        };
        PublisherRequest { tag, publisher_handle: publisher_handle.to_owned(), id_cert }
    }

    pub fn into_parts(self) -> (r: (Option<String>, String, Vec<u8>))
        ensures
            r.1@ == self.handle_spec(),
            r.2@ == self.id_cert_spec(),
    {
        (self.tag, self.publisher_handle, self.id_cert)
    }
}

//------------ Command -------------------------------------------------------

/// A change asked of a registry.
pub enum Command {
    Add(PublisherRequest),
    Remove(String),
}

/// A command, with the version of the registry that its sender saw.
pub struct VersionedCommand {
    version: usize,
    command: Command,
}

impl View for VersionedCommand {
    type V = VersionedCommandView;

    closed spec fn view(&self) -> VersionedCommandView {
        VersionedCommandView {
            version: self.version as nat,
            command: match self.command {
                Command::Add(pr) => CommandView::Add {
                    name: pr.handle_spec(),
                    id_cert: pr.id_cert_spec(),
                },
                Command::Remove(n) => CommandView::Remove(n@),
            },
        }
    }
}

impl VersionedCommand {
    pub fn add_publisher(version: usize, pr: PublisherRequest) -> (r: VersionedCommand)
        ensures
            r@ == (VersionedCommandView {
                version: version as nat,
                command: CommandView::Add { name: pr.handle_spec(), id_cert: pr.id_cert_spec() },
            }),
    {
        VersionedCommand { version, command: Command::Add(pr) }
    }

    pub fn remove_publisher(version: usize, name: String) -> (r: VersionedCommand)
        ensures
            r@ == (VersionedCommandView { version: version as nat, command: CommandView::Remove(name@) }),
    {
        VersionedCommand { version, command: Command::Remove(name) }
    }
}

//------------ Event ---------------------------------------------------------

/// What happened to a registry. Replayed in order, events rebuild it.
pub enum Event {
    Added(PublisherAdded),
    CertUpdated(PublisherIdUpdated),
    Removed(PublisherRemoved),
}

/// An event, with the version of the registry that it was applied to.
pub struct VersionedEvent {
    version: usize,
    event: Event,
}

pub struct PublisherAdded(Publisher);

/// Reserved: no command yields it yet.
pub struct PublisherIdUpdated(String);

pub struct PublisherRemoved(String);

impl View for VersionedEvent {
    type V = VersionedEventView;

    closed spec fn view(&self) -> VersionedEventView {
        VersionedEventView {
            version: self.version as nat,
            event: match self.event {
                Event::Added(a) => EventKindView::Added(a.0@),
                Event::CertUpdated(u) => EventKindView::CertUpdated(u.0@),
                Event::Removed(r) => EventKindView::Removed(r.0@),
            },
        }
    }
}

impl VersionedEvent {
    pub fn version(&self) -> (r: usize)
        ensures
            r as nat == self@.version,
    {
        self.version
    }

    pub fn clone(&self) -> (r: VersionedEvent)
        ensures
            r@ == self@,
    {
        let event = match &self.event {
            Event::Added(a) => Event::Added(PublisherAdded(a.0.clone())),
            Event::CertUpdated(u) => Event::CertUpdated(PublisherIdUpdated(u.0.clone())),
            Event::Removed(r) => Event::Removed(PublisherRemoved(r.0.clone())),
        };
        VersionedEvent { version: self.version, event }
    }
}

//------------ PublisherListError ---------------------------------------------------------

#[derive(Debug)]
pub enum PublisherListError {
    VersionConflict(usize, usize),
    ForwardSlashInHandle(String),
    UriError(rpki::uri::Error),
    DuplicatePublisher(String),
    UnknownPublisher(String),
}

impl View for PublisherListError {
    type V = ErrorView;

    open spec fn view(&self) -> ErrorView {
        match self {
            PublisherListError::VersionConflict(c, v) => ErrorView::VersionConflict(*c as nat, *v as nat),
            PublisherListError::ForwardSlashInHandle(n) => ErrorView::ForwardSlashInHandle(n@),
            PublisherListError::UriError(_) => ErrorView::UriError,
            PublisherListError::DuplicatePublisher(n) => ErrorView::DuplicatePublisher(n@),
            PublisherListError::UnknownPublisher(n) => ErrorView::UnknownPublisher(n@),
        }
    }
}

impl From<rpki::uri::Error> for PublisherListError {
    fn from(e: rpki::uri::Error) -> (r: PublisherListError)
        ensures
            r == PublisherListError::UriError(e),
    {
        PublisherListError::UriError(e)
    }
}

impl vstd::std_specs::convert::FromSpecImpl<rpki::uri::Error> for PublisherListError {
    open spec fn obeys_from_spec() -> bool {
        true
    }

    open spec fn from_spec(e: rpki::uri::Error) -> PublisherListError {
        PublisherListError::UriError(e)
    }
}

/// The view of a result that carries no value.
pub open spec fn unit_result_view(r: Result<(), PublisherListError>) -> Result<(), ErrorView> {
    match r {
        Ok(()) => Ok(()),
        Err(e) => Err(e@),
    }
}

/// The view of a result that carries an event.
pub open spec fn event_result_view(r: Result<VersionedEvent, PublisherListError>) -> Result<
    VersionedEventView,
    ErrorView,
> {
    match r {
        Ok(e) => Ok(e@),
        Err(e) => Err(e@),
    }
}

//------------ PublisherList -------------------------------------------------

/// The registry of publishers. Every accepted event raises its version by one.
pub struct PublisherList {
    version: usize,
    base_uri: RsyncUri,
    publishers: Vec<Publisher>,
}

impl View for PublisherList {
    type V = PublisherListView;

    closed spec fn view(&self) -> PublisherListView {
        PublisherListView {
            version: self.version as nat,
            base_uri: self.base_uri@,
            publishers: self.publishers@.map_values(|p: Publisher| p@),
        }
    }
}

/// Whether `s` contains `c`.
fn contains_char(s: &String, c: char) -> (r: bool)
    ensures
        r == s@.contains(c),
{
    let n = s.as_str().unicode_len();
    let mut i: usize = 0;
    while i < n
        invariant
            n == s@.len(),
            i <= n,
            forall|j: int| 0 <= j < i ==> s@[j] != c,
        decreases n - i,
    {
        if s.as_str().get_char(i) == c {
            return true;
        }
        i = i + 1;
    }
    false
}

impl PublisherList {
    /// Publisher names are unique.
    pub closed spec fn wf(&self) -> bool {
        names_unique(self@.publishers)
    }

    /// An empty registry at version 0.
    pub fn new(base_uri: RsyncUri) -> (r: PublisherList)
        ensures
            r@ == fresh(base_uri@),
            r.wf(),
    {
        let r = PublisherList { version: 0, base_uri, publishers: Vec::new() };
        assert(r@.publishers =~= Seq::<PublisherView>::empty());
        r
    }

    pub fn version(&self) -> (r: usize)
        ensures
            r as nat == self@.version,
    {
        self.version
    }

    pub fn base_uri(&self) -> (r: &RsyncUri)
        ensures
            r@ == self@.base_uri,
    {
        &self.base_uri
    }

    pub fn publishers(&self) -> (r: &[Publisher])
        ensures
            r@.map_values(|p: Publisher| p@) == self@.publishers,
    {
        self.publishers.as_slice()
    }

    /// The position of the publisher called `name`, if there is one.
    fn find_publisher(&self, name: &String) -> (r: Option<usize>)
        ensures
            r is Some <==> has_name(self@.publishers, name@),
            r matches Some(i) ==> i < self@.publishers.len() && self@.publishers[i as int].name
                == name@,
    {
        let mut i: usize = 0;
        while i < self.publishers.len()
            invariant
                i <= self.publishers@.len(),
                forall|j: int| 0 <= j < i ==> self@.publishers[j].name != name@,
            decreases self.publishers@.len() - i,
        {
            if self.publishers[i].name == *name {
                assert(self@.publishers[i as int].name == name@);
                return Some(i);
            }
            i = i + 1;
        }
        assert(!has_name(self@.publishers, name@));
        None
    }

    pub fn has_publisher(&self, name: &String) -> (r: bool)
        ensures
            r == has_name(self@.publishers, name@),
    {
        self.find_publisher(name).is_some()
    }

    /// Applies an event: it must carry the registry's version, may add only a
    /// publisher whose name is new, and may remove only one that is there.
    pub fn apply_event(&mut self, event: &VersionedEvent) -> (r: Result<(), PublisherListError>)
        requires
            old(self).wf(),
            old(self)@.version < usize::MAX,
            !(event@.event is CertUpdated),
        ensures
            final(self).wf(),
            unit_result_view(r) == (match event_error(old(self)@, event@) {
                Some(e) => Err(e),
                None => Ok(()),
            }),
            r is Ok ==> final(self)@ == next(old(self)@, event@),
            r is Err ==> final(self)@ == old(self)@,
    {
        if self.version != event.version {
            return Err(PublisherListError::VersionConflict(self.version, event.version));
        }
        let ghost s0 = self@;
        match &event.event {
            Event::Added(a) => {
                if self.has_publisher(&a.0.name) {
                    return Err(PublisherListError::DuplicatePublisher(a.0.name.clone()));
                }
                self.publishers.push(a.0.clone());
                assert(self@.publishers =~= s0.publishers.push(a.0@));
            },
            Event::Removed(r) => {
                let name = &r.0;
                match self.find_publisher(name) {
                    None => {
                        return Err(PublisherListError::UnknownPublisher(name.clone()));
                    },
                    Some(i) => {
                        assert(i as int == index_of(s0.publishers, name@));
                        self.publishers.remove(i);
                        assert(self@.publishers =~= s0.publishers.remove(i as int));
                    },
                }
            },
            Event::CertUpdated(_) => {},
        }
        self.version = self.version + 1;
        Ok(())
    }
    /// Checks a command against the registry; where it is accepted, applies
    /// the event that it yields and returns that event. A refused command
    /// leaves the registry as it was.
    pub fn apply_command(&mut self, command: VersionedCommand) -> (r: Result<
        VersionedEvent,
        PublisherListError,
    >)
        requires
            old(self).wf(),
            old(self)@.version < usize::MAX,
        ensures
            final(self).wf(),
            event_result_view(r) == command_outcome(old(self)@, command@),
            r matches Ok(e) ==> accepts(old(self)@, e@) && final(self)@ == next(old(self)@, e@),
            r is Err ==> final(self)@ == old(self)@,
    {
        if self.version != command.version {
            return Err(PublisherListError::VersionConflict(self.version, command.version));
        }
        match command.command {
            Command::Add(pub_req) => self.add_publisher(pub_req),
            Command::Remove(name) => self.remove_publisher(name),
        }
    }

    fn add_publisher(&mut self, pr: PublisherRequest) -> (r: Result<
        VersionedEvent,
        PublisherListError,
    >)
        requires
            old(self).wf(),
            old(self)@.version < usize::MAX,
        ensures
            final(self).wf(),
            event_result_view(r) == command_outcome(
                old(self)@,
                VersionedCommandView {
                    version: old(self)@.version,
                    command: CommandView::Add { name: pr.handle_spec(), id_cert: pr.id_cert_spec() },
                },
            ),
            r matches Ok(e) ==> accepts(old(self)@, e@) && final(self)@ == next(old(self)@, e@),
            r is Err ==> final(self)@ == old(self)@,
    {
        let (_, name, id_cert) = pr.into_parts();
        if contains_char(&name, '/') {
            return Err(PublisherListError::ForwardSlashInHandle(name));
        }
        let mut base_uri = self.base_uri.to_text();
        push_str(&mut base_uri, name.as_str());
        let base_uri = match RsyncUri::from_string(base_uri) {
            Ok(u) => u,
            Err(e) => {
                return Err(PublisherListError::from(e));
            },
        };
        let publisher = Publisher { name, base_uri, id_cert };
        let event = VersionedEvent {
            version: self.version,
            event: Event::Added(PublisherAdded(publisher)),
        };
        match self.apply_event(&event) {
            Ok(()) => Ok(event),
            Err(e) => Err(e),
        }
    }

    fn remove_publisher(&mut self, name: String) -> (r: Result<VersionedEvent, PublisherListError>)
        requires
            old(self).wf(),
            old(self)@.version < usize::MAX,
        ensures
            final(self).wf(),
            event_result_view(r) == command_outcome(
                old(self)@,
                VersionedCommandView {
                    version: old(self)@.version,
                    command: CommandView::Remove(name@),
                },
            ),
            r matches Ok(e) ==> accepts(old(self)@, e@) && final(self)@ == next(old(self)@, e@),
            r is Err ==> final(self)@ == old(self)@,
    {
        let event = VersionedEvent {
            version: self.version,
            event: Event::Removed(PublisherRemoved(name)),
        };
        match self.apply_event(&event) {
            Ok(()) => Ok(event),
            Err(e) => Err(e),
        }
    }

    /// Rebuilds a registry below `base_uri` by applying `events` in order to
    /// a fresh one. Fails with the error of the first event that is refused.
    pub fn replay(base_uri: RsyncUri, events: &Vec<VersionedEvent>) -> (r: Result<
        PublisherList,
        PublisherListError,
    >)
        requires
            forall|i: int| 0 <= i < events@.len() ==> !(#[trigger] events@[i]@.event is CertUpdated),
        ensures
            r is Ok <==> replay(fresh(base_uri@), events_view(events@)) is Some,
            r matches Ok(l) ==> replay(fresh(base_uri@), events_view(events@)) == Some(l@) && l.wf(),
            r matches Err(e) ==> exists|k: int|
                #[trigger] refused_at(fresh(base_uri@), events_view(events@), k, e@),
    {
        let ghost s0 = fresh(base_uri@);
        let ghost es = events_view(events@);
        let mut list = PublisherList::new(base_uri);
        let mut i: usize = 0;
        assert(es.take(0) =~= Seq::<VersionedEventView>::empty());
        while i < events.len()
            invariant
                i <= events@.len(),
                s0 == fresh(base_uri@),
                es == events_view(events@),
                list.wf(),
                forall|j: int| 0 <= j < events@.len() ==> !(#[trigger] events@[j]@.event is CertUpdated),
                replay(s0, es.take(i as int)) == Some(list@),
            decreases events@.len() - i,
        {
            proof {
                lemma_replay_version(s0, es.take(i as int));
                assert(es.take(i as int + 1).drop_last() =~= es.take(i as int));
                assert(es.take(i as int + 1).last() == events@[i as int]@);
            }
            match list.apply_event(&events[i]) {
                Ok(()) => {},
                Err(e) => {
                    assert(refused_at(s0, es, i as int, e@));
                    proof {
                        lemma_replay_refused_prefix(s0, es, i as int);
                    }
                    return Err(e);
                },
            }
            i = i + 1;
        }
        assert(es.take(i as int) =~= es);
        Ok(list)
    }
}

/// Replaying `es` from `s0` goes well up to event `k`, which is refused with `err`.
pub open spec fn refused_at(
    s0: PublisherListView,
    es: Seq<VersionedEventView>,
    k: int,
    err: ErrorView,
) -> bool {
    &&& 0 <= k < es.len()
    &&& replay(s0, es.take(k)) matches Some(t)
    &&& event_error(t, es[k]) == Some(err)
}

/// The views of a sequence of events.
pub open spec fn events_view(es: Seq<VersionedEvent>) -> Seq<VersionedEventView> {
    es.map_values(|e: VersionedEvent| e@)
}

/// Every event that a registry accepts raises its version by exactly one, so
/// replaying `es` from `s0` ends at version `s0.version + es.len()`.
pub proof fn lemma_replay_version(s0: PublisherListView, es: Seq<VersionedEventView>)
    ensures
        replay(s0, es) matches Some(s) ==> s.version == s0.version + es.len(),
    decreases es.len(),
{
    if es.len() > 0 {
        lemma_replay_version(s0, es.drop_last());
    }
}

/// Once one event of `es` is refused, replaying `es` as a whole fails.
pub proof fn lemma_replay_refused_prefix(s0: PublisherListView, es: Seq<VersionedEventView>, k: int)
    requires
        0 <= k < es.len(),
        !(replay(s0, es.take(k + 1)) is Some),
    ensures
        !(replay(s0, es) is Some),
    decreases es.len() - k,
{
    if k + 1 == es.len() {
        assert(es.take(k + 1) =~= es);
    } else {
        assert(es.take(k + 2).drop_last() =~= es.take(k + 1));
        lemma_replay_refused_prefix(s0, es, k + 1);
    }
}

/// The events that running the commands `cs` from `s` yields, in order; a
/// refused command yields none.
pub open spec fn history(s: PublisherListView, cs: Seq<VersionedCommandView>) -> Seq<
    VersionedEventView,
>
    decreases cs.len(),
{
    if cs.len() == 0 {
        Seq::empty()
    } else {
        let h = history(s, cs.drop_last());
        match run_commands(s, cs.drop_last()) {
            Some(t) => match command_outcome(t, cs.last()) {
                Ok(e) => h.push(e),
                Err(_) => h,
            },
            None => h,
        }
    }
}

/// The event that an accepted command yields is one that the registry
/// accepts, and it carries the registry's version.
pub proof fn lemma_command_event_accepted(s: PublisherListView, c: VersionedCommandView)
    ensures
        command_outcome(s, c) matches Ok(e) ==> accepts(s, e) && e.version == s.version,
{
}

/// Each run of commands that all succeed raises the version by the number of
/// commands: from a fresh registry, the version after `n` commands is `n`.
pub proof fn lemma_run_commands_version(s0: PublisherListView, cs: Seq<VersionedCommandView>)
    ensures
        run_commands(s0, cs) matches Some(s) ==> s.version == s0.version + cs.len(),
        s0.version == 0 ==> (run_commands(s0, cs) matches Some(s) ==> s.version == cs.len()),
    decreases cs.len(),
{
    if cs.len() > 0 {
        lemma_run_commands_version(s0, cs.drop_last());
    }
}

/// A command whose version is not the registry's is refused with a version
/// conflict that names the registry's version and the command's.
pub proof fn lemma_stale_command_conflicts(s: PublisherListView, c: VersionedCommandView)
    requires
        c.version != s.version,
    ensures
        command_outcome(s, c) == Err::<VersionedEventView, ErrorView>(
            ErrorView::VersionConflict(s.version, c.version),
        ),
{
}

/// A registered publisher stays registered through any accepted command that
/// does not remove it, and the base URI never changes.
pub proof fn lemma_name_kept(s: PublisherListView, c: VersionedCommandView, x: Seq<char>)
    requires
        has_name(s.publishers, x),
        c.command != CommandView::Remove(x),
        command_outcome(s, c) is Ok,
    ensures
        command_outcome(s, c) matches Ok(e) && has_name(next(s, e).publishers, x) && next(
            s,
            e,
        ).base_uri == s.base_uri,
{
    let ps = s.publishers;
    let i = choose|i: int| 0 <= i < ps.len() && (#[trigger] ps[i]).name == x;
    if let Ok(e) = command_outcome(s, c) {
        match c.command {
            CommandView::Add { name, id_cert } => {
                let after = next(s, e).publishers;
                assert(after[i].name == x);
            },
            CommandView::Remove(y) => {
                let j = index_of(ps, y);
                assert(0 <= j < ps.len() && ps[j].name == y);
                assert(i != j);
                let after = ps.remove(j);
                if i < j {
                    assert(after[i] == ps[i]);
                } else {
                    assert(after[i - 1] == ps[i]);
                }
            },
        }
    }
}

/// Running commands none of which removes `x` keeps `x` registered and the
/// base URI as it was.
pub proof fn lemma_name_kept_through(s: PublisherListView, cs: Seq<VersionedCommandView>, x: Seq<char>)
    requires
        has_name(s.publishers, x),
        forall|k: int| 0 <= k < cs.len() ==> (#[trigger] cs[k]).command != CommandView::Remove(x),
    ensures
        run_commands(s, cs) matches Some(t) ==> has_name(t.publishers, x) && t.base_uri == s.base_uri,
    decreases cs.len(),
{
    if cs.len() > 0 {
        let init = cs.drop_last();
        assert forall|k: int| 0 <= k < init.len() implies (#[trigger] init[k]).command
            != CommandView::Remove(x) by {
            assert(init[k] == cs[k]);
        }
        lemma_name_kept_through(s, init, x);
        if let Some(t) = run_commands(s, init) {
            if command_outcome(t, cs.last()) is Ok {
                assert(cs.last() == cs[cs.len() - 1]);
                lemma_name_kept(t, cs.last(), x);
            }
        }
    }
}

/// Adding a publisher under a name that is registered is refused as a
/// duplicate of that name: once `name` was added, adding it again fails for
/// as long as no command in between removed it.
pub proof fn lemma_add_again_is_duplicate(
    s: PublisherListView,
    name: Seq<char>,
    first_cert: Seq<u8>,
    between: Seq<VersionedCommandView>,
    second_cert: Seq<u8>,
)
    requires
        command_outcome(
            s,
            VersionedCommandView {
                version: s.version,
                command: CommandView::Add { name, id_cert: first_cert },
            },
        ) is Ok,
        forall|k: int|
            0 <= k < between.len() ==> (#[trigger] between[k]).command != CommandView::Remove(name),
    ensures
        command_outcome(
            s,
            VersionedCommandView {
                version: s.version,
                command: CommandView::Add { name, id_cert: first_cert },
            },
        ) matches Ok(e) && (run_commands(next(s, e), between) matches Some(t) ==> command_outcome(
            t,
            VersionedCommandView {
                version: t.version,
                command: CommandView::Add { name, id_cert: second_cert },
            },
        ) == Err::<VersionedEventView, ErrorView>(ErrorView::DuplicatePublisher(name))),
{
    let p = PublisherView {
        name,
        base_uri: publisher_base_uri(s.base_uri, name),
        id_cert: first_cert,
    };
    let ps = s.publishers.push(p);
    assert(ps[s.publishers.len() as int].name == name);
    assert(has_name(ps, name));
    if let Ok(e) = command_outcome(
        s,
        VersionedCommandView {
            version: s.version,
            command: CommandView::Add { name, id_cert: first_cert },
        },
    ) {
        lemma_name_kept_through(next(s, e), between, name);
    }
}

/// A name that holds a `/` is refused before anything else is looked at,
/// whatever the registry holds.
pub proof fn lemma_slash_in_name_refused(s: PublisherListView, name: Seq<char>, id_cert: Seq<u8>)
    requires
        name.contains('/'),
    ensures
        command_outcome(
            s,
            VersionedCommandView { version: s.version, command: CommandView::Add { name, id_cert } },
        ) == Err::<VersionedEventView, ErrorView>(ErrorView::ForwardSlashInHandle(name)),
{
}

/// Replaying, from the same start, the history that a run of commands
/// recorded reaches exactly the state that the run reached: the same version
/// and the same publishers in the same order.
pub proof fn lemma_history_replays(s0: PublisherListView, cs: Seq<VersionedCommandView>)
    ensures
        run_commands(s0, cs) matches Some(s) ==> replay(s0, history(s0, cs)) == Some(s),
    decreases cs.len(),
{
    if cs.len() > 0 {
        lemma_history_replays(s0, cs.drop_last());
        if let Some(t) = run_commands(s0, cs.drop_last()) {
            lemma_command_event_accepted(t, cs.last());
            if let Ok(e) = command_outcome(t, cs.last()) {
                let h = history(s0, cs.drop_last());
                assert(h.push(e).drop_last() =~= h);
            }
        }
    }
}

/// An event that was just applied is refused when it comes again, because
/// the version it carries is no longer the registry's.
pub proof fn lemma_applied_event_refused_again(s: PublisherListView, e: VersionedEventView)
    requires
        accepts(s, e),
    ensures
        event_error(next(s, e), e) == Some(ErrorView::VersionConflict(s.version + 1, e.version)),
{
}

} // verus!
