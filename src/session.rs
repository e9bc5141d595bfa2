//! The session registry: the single owner of every live pseudo-terminal
//! session, keyed by a 128-bit id.
use std::collections::{HashMap, HashSet};
use vstd::prelude::*;
use vstd::std_specs::iter::IteratorSpec;

use crate::pty::{flush_to, open_pty, pty_size, random_session_id, resize_pty, write_all_to, SessionPty, SessionWriter};

verus! {

broadcast use vstd::std_specs::hash::group_hash_axioms;

/// How many fresh ids a registration draws before it gives up.
pub const ID_DRAWS: u32 = 4;

/// The rows of a terminal opened without a size.
pub const DEFAULT_ROWS: u16 = 24;

/// The columns of a terminal opened without a size.
pub const DEFAULT_COLS: u16 = 80;

/// Why a session operation failed.
#[derive(Debug, Clone, PartialEq, Eq)]
pub enum SessionError {
    /// No live session has the given id.
    NotFound,
    /// A parameter is structurally invalid, such as a zero geometry.
    InvalidArgument,
    /// An operation of the OS failed; its description.
    IoFailure(String),
}

/// A live session's handles: its pseudo-terminal pair and the sink bound
/// to the pair's master side.
pub struct TerminalInstance<W> {
    pub pty_pair: SessionPty,
    pub writer: SessionWriter<W>,
}

/// What is known of a live session: the bytes its input has accepted,
/// whether they were flushed, and its geometry.
pub struct SessionModel {
    pub sent: Seq<u8>,
    pub flushed: bool,
    pub geometry: (u16, u16),
}

/// The model of a session's handles.
pub open spec fn session_model<W>(t: TerminalInstance<W>) -> SessionModel {
    SessionModel { sent: t.writer.sent(), flushed: t.writer.flushed(), geometry: t.pty_pair.geometry() }
}

/// The registry of live sessions, with every id it has ever issued.
pub struct TerminalState<W> {
    terminals: HashMap<u128, TerminalInstance<W>>,
    issued: HashSet<u128>,
}

/// The error, if any, that an operation on `id` meets before any I/O when
/// the live ids are `ids`.
pub open spec fn lookup_error(ids: Set<u128>, id: u128) -> Option<SessionError> {
    if ids.contains(id) {
        None
    } else {
        Some(SessionError::NotFound)
    }
}

/// The error, if any, that a resize meets before any I/O.
pub open spec fn resize_error(ids: Set<u128>, id: u128, rows: u16, cols: u16) -> Option<SessionError> {
    if rows == 0 || cols == 0 {
        Some(SessionError::InvalidArgument)
    } else {
        lookup_error(ids, id)
    }
}

/// An operation that reached the OS either succeeded or failed there.
pub open spec fn is_ok_or_io<T>(r: Result<T, SessionError>) -> bool {
    r is Ok || r matches Err(SessionError::IoFailure(_))
}

/// The geometry a terminal is opened at: the size asked for, else the default.
pub open spec fn requested_geometry(size: Option<(u16, u16)>) -> (u16, u16) {
    match size {
        Some(s) => s,
        None => (DEFAULT_ROWS, DEFAULT_COLS),
    }
}

impl<W> View for TerminalState<W> {
    type V = Map<u128, SessionModel>;

    /// The live sessions by id.
    closed spec fn view(&self) -> Map<u128, SessionModel> {
        self.terminals@.map_values(|t: TerminalInstance<W>| session_model(t))
    }
}

/// Opens a pseudo-terminal pair for a new session, at the size asked for or
/// the default one.
pub fn open_session_pty(size: Option<(u16, u16)>) -> (r: Result<SessionPty, SessionError>)
    ensures
        ({
            let (rows, cols) = requested_geometry(size);
            &&& (rows == 0 || cols == 0) ==> r == Err::<SessionPty, SessionError>(SessionError::InvalidArgument)
            &&& (rows > 0 && cols > 0) ==> is_ok_or_io(r)
            &&& r matches Ok(p) ==> p.geometry() == (rows, cols)
        }),
{
    let (rows, cols) = match size {
        Some(s) => s,
        None => (DEFAULT_ROWS, DEFAULT_COLS),
    };
    if rows == 0 || cols == 0 {
        return Err(SessionError::InvalidArgument);
    }
    match open_pty(pty_size(rows, cols)) {
        Ok(pty) => Ok(pty),
        Err(e) => Err(SessionError::IoFailure(e)),
    }
}

impl<W> Default for TerminalState<W> {
    /// An empty registry.
    fn default() -> (r: Self)
        ensures
            r@ == Map::<u128, SessionModel>::empty(),
            r.issued() == Set::<u128>::empty(),
    {
        TerminalState::new()
    }
}

impl<W> TerminalState<W> {
    /// Every id this registry has issued, live or killed.
    pub closed spec fn issued(&self) -> Set<u128> {
        self.issued@
    }

    /// An empty registry.
    pub fn new() -> (r: Self)
        ensures
            r@ == Map::<u128, SessionModel>::empty(),
            r.issued() == Set::<u128>::empty(),
    {
        let r = TerminalState { terminals: HashMap::new(), issued: HashSet::new() };
        assert(r@ =~= Map::<u128, SessionModel>::empty());
        r
    }

    /// Whether a session with this id is live.
    pub fn contains(&self, id: u128) -> (r: bool)
        ensures
            r == self@.contains_key(id),
    {
        self.terminals.contains_key(&id)
    }

    /// Stores a session under `id` if the id was never issued (nor is live);
    /// otherwise hands the session back.
    pub fn register_id(&mut self, id: u128, instance: TerminalInstance<W>) -> (r: Result<u128, TerminalInstance<W>>)
        ensures
            (!old(self).issued().contains(id) && !old(self)@.contains_key(id)) ==> r == Ok::<u128, TerminalInstance<W>>(id)
                && final(self)@ == old(self)@.insert(id, session_model(instance))
                && final(self).issued() == old(self).issued().insert(id),
            (old(self).issued().contains(id) || old(self)@.contains_key(id)) ==> r == Err::<u128, TerminalInstance<W>>(instance)
                && final(self)@ == old(self)@ && final(self).issued() == old(self).issued(),
    {
        if self.issued.contains(&id) || self.terminals.contains_key(&id) {
            return Err(instance);
        }
        let ghost model = session_model(instance);
        self.terminals.insert(id, instance);
        self.issued.insert(id);
        assert(self@ =~= old(self)@.insert(id, model));
        Ok(id)
    }

    /// Stores a new session under a freshly drawn id, never issued before,
    /// and returns the id. The session is live from here on, before anything
    /// reads from it. Up to `ID_DRAWS` ids are drawn.
    pub fn register(&mut self, instance: TerminalInstance<W>) -> (r: Result<u128, SessionError>)
        ensures
            r matches Ok(id) ==> !old(self).issued().contains(id) && !old(self)@.contains_key(id)
                && final(self)@ == old(self)@.insert(id, session_model(instance))
                && final(self).issued() == old(self).issued().insert(id),
            r is Err ==> final(self)@ == old(self)@ && final(self).issued() == old(self).issued()
                && r matches Err(SessionError::IoFailure(_)),
            (old(self).issued() =~= Set::<u128>::empty() && old(self)@.dom() =~= Set::<u128>::empty()) ==> r is Ok,
    {
        let mut pending = instance;
        let mut draws: u32 = 0;
        while draws < ID_DRAWS
            invariant
                draws <= ID_DRAWS,
                pending == instance,
                self@ == old(self)@,
                self.issued() == old(self).issued(),
                (old(self).issued() =~= Set::<u128>::empty() && old(self)@.dom() =~= Set::<u128>::empty()) ==> draws == 0,
            decreases ID_DRAWS - draws,
        {
            let id = random_session_id();
            match self.register_id(id, pending) {
                Ok(i) => return Ok(i),
                Err(t) => pending = t,
            }
            draws = draws + 1;
        }
        Err(SessionError::IoFailure(String::from_str("no free session id")))
    }

    /// Removes a live session and releases its handles. Its id stays issued.
    pub fn kill_terminal(&mut self, id: u128) -> (r: Result<(), SessionError>)
        ensures
            final(self)@ == old(self)@.remove(id),
            final(self).issued() == old(self).issued(),
            r is Ok <==> old(self)@.contains_key(id),
            r is Err ==> r == Err::<(), SessionError>(SessionError::NotFound),
    {
        let r = match self.terminals.remove(&id) {
            Some(_) => Ok(()),
            None => Err(SessionError::NotFound),
        };
        assert(self@ =~= old(self)@.remove(id));
        r
    }

    /// The ids of all live sessions, each once, in no particular order.
    pub fn list_terminals(&self) -> (r: Vec<u128>)
        ensures
            r@.to_set() =~= self@.dom(),
            r@.no_duplicates(),
    {
        let mut out: Vec<u128> = Vec::new();
        let keys = self.terminals.keys();
        let ghost all = keys.remaining().unref();
        for k in it: keys
            invariant
                it.seq().unref() == all,
                all.to_set() == self.terminals@.dom(),
                all.no_duplicates(),
                out@ == all.take(it.index()),
        {
            out.push(*k);
        }
        assert(out@ =~= all);
        out
    }

    /// Changes the geometry of a live session's pseudo-terminal.
    pub fn resize_terminal(&mut self, id: u128, rows: u16, cols: u16) -> (r: Result<(), SessionError>)
        ensures
            final(self).issued() == old(self).issued(),
            resize_error(old(self)@.dom(), id, rows, cols) matches Some(e) ==> r == Err::<(), SessionError>(e)
                && final(self)@ == old(self)@,
            resize_error(old(self)@.dom(), id, rows, cols) is None ==> is_ok_or_io(r),
            r is Ok ==> final(self)@ == old(self)@.insert(id, SessionModel {
                geometry: (rows, cols),
                ..old(self)@[id]
            }),
            r is Err ==> final(self)@ == old(self)@,
    {
        if rows == 0 || cols == 0 {
            return Err(SessionError::InvalidArgument);
        }
        match self.terminals.remove(&id) {
            Some(mut t) => {
                let ghost before = t;
                let r = match resize_pty(&mut t.pty_pair, pty_size(rows, cols)) {
                    Ok(()) => Ok(()),
                    Err(e) => Err(SessionError::IoFailure(e)),
                };
                proof {
                    assert(t.writer == before.writer);
                }
                self.terminals.insert(id, t);
                assert(self@ =~= old(self)@.insert(id, session_model(t)));
                proof {
                    if r is Err {
                        assert(session_model(t) == session_model(before));
                        assert(self@ =~= old(self)@);
                    }
                }
                r
            },
            None => Err(SessionError::NotFound),
        }
    }
}

impl<W: std::io::Write> TerminalState<W> {
    /// Writes raw bytes to a live session and flushes them. A failed write
    /// or flush is reported with its description, and the session stays.
    pub fn write_terminal(&mut self, id: u128, data: &[u8]) -> (r: Result<(), SessionError>)
        ensures
            final(self).issued() == old(self).issued(),
            final(self)@.dom() == old(self)@.dom(),
            lookup_error(old(self)@.dom(), id) matches Some(e) ==> r == Err::<(), SessionError>(e)
                && final(self)@ == old(self)@,
            lookup_error(old(self)@.dom(), id) is None ==> is_ok_or_io(r),
            r is Ok ==> final(self)@ == old(self)@.insert(id, SessionModel {
                sent: old(self)@[id].sent + data@,
                flushed: true,
                geometry: old(self)@[id].geometry,
            }),
            forall|k: u128| k != id && #[trigger] old(self)@.contains_key(k) ==> final(self)@[k] == old(self)@[k],
            final(self)@.contains_key(id) ==> final(self)@[id].geometry == old(self)@[id].geometry,
    {
        match self.terminals.remove(&id) {
            Some(mut t) => {
                let ghost before = t;
                let r = match write_all_to(&mut t.writer, data) {
                    Ok(()) => match flush_to(&mut t.writer) {
                        Ok(()) => Ok(()),
                        Err(e) => {
                            let mut m = String::from_str("Failed to flush terminal: ");
                            m.append(e.as_str());
                            Err(SessionError::IoFailure(m))
                        },
                    },
                    Err(e) => {
                        let mut m = String::from_str("Failed to write to terminal: ");
                        m.append(e.as_str());
                        Err(SessionError::IoFailure(m))
                    },
                };
                assert(t.pty_pair == before.pty_pair);
                self.terminals.insert(id, t);
                assert(self@ =~= old(self)@.insert(id, session_model(t)));
                r
            },
            None => Err(SessionError::NotFound),
        }
    }

    /// Types a startup command into a session: the command's line goes to the
    /// session's input like any other write. A session killed before this
    /// runs is left alone.
    pub fn inject_startup_command(&mut self, id: u128, command: &[u8]) -> (r: Result<(), SessionError>)
        ensures
            final(self).issued() == old(self).issued(),
            final(self)@.dom() == old(self)@.dom(),
            lookup_error(old(self)@.dom(), id) matches Some(e) ==> r == Err::<(), SessionError>(e)
                && final(self)@ == old(self)@,
            lookup_error(old(self)@.dom(), id) is None ==> is_ok_or_io(r),
            r is Ok ==> final(self)@ == old(self)@.insert(id, SessionModel {
                sent: old(self)@[id].sent + command@.push(NEWLINE),
                flushed: true,
                geometry: old(self)@[id].geometry,
            }),
            forall|k: u128| k != id && #[trigger] old(self)@.contains_key(k) ==> final(self)@[k] == old(self)@[k],
    {
        let line = startup_line(command);
        self.write_terminal(id, line.as_slice())
    }
}

/// The byte that ends a line.
pub const NEWLINE: u8 = 10;

/// The line that runs `command` in a shell: the command and a newline.
pub fn startup_line(command: &[u8]) -> (r: Vec<u8>)
    ensures
        r@ == command@.push(NEWLINE),
{
    let mut line: Vec<u8> = Vec::new();
    let mut i: usize = 0;
    while i < command.len()
        invariant
            i <= command@.len(),
            line@ == command@.take(i as int),
        decreases command@.len() - i,
    {
        line.push(command[i]);
        i = i + 1;
        assert(line@ =~= command@.take(i as int));
    }
    assert(command@.take(command@.len() as int) =~= command@);
    line.push(NEWLINE);
    line
}

/// Once a session is killed, writes and resizes of its id find nothing.
pub proof fn lemma_killed_session_is_gone(ids: Set<u128>, id: u128, rows: u16, cols: u16)
    requires
        rows > 0,
        cols > 0,
    ensures
        !ids.remove(id).contains(id),
        lookup_error(ids.remove(id), id) == Some(SessionError::NotFound),
        resize_error(ids.remove(id), id, rows, cols) == Some(SessionError::NotFound),
{
}

/// A zero row or column count is refused whatever the session.
pub proof fn lemma_zero_geometry_refused(ids: Set<u128>, id: u128, n: u16)
    ensures
        resize_error(ids, id, 0, n) == Some(SessionError::InvalidArgument),
        resize_error(ids, id, n, 0) == Some(SessionError::InvalidArgument),
{
}

} // verus!
