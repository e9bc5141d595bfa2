//! The outside calls that sessions rest on: portable_pty for pseudo-terminals,
//! uuid for session ids, dirs for the home directory, and std's byte sinks.
use vstd::prelude::*;

verus! {

/// portable_pty's terminal geometry: four plain `u16` fields.
#[verifier::external_type_specification]
pub struct ExPtySize(portable_pty::PtySize);

/// A master/slave pseudo-terminal pair, opaque to proofs.
#[verifier::external_type_specification]
#[verifier::external_body]
pub struct ExPtyPair(portable_pty::PtyPair);

/// A command line under construction, opaque to proofs.
#[verifier::external_type_specification]
#[verifier::external_body]
pub struct ExCommandBuilder(portable_pty::CommandBuilder);

/// A lowercase hexadecimal digit.
pub open spec fn hex_digit(d: int) -> char {
    seq!['0', '1', '2', '3', '4', '5', '6', '7', '8', '9', 'a', 'b', 'c', 'd', 'e', 'f'][d]
}

/// Nibble `k` of a 128-bit id, counted from the most significant.
pub open spec fn uuid_nibble(id: u128, k: int) -> int {
    ((id >> ((124 - 4 * k) as u128)) & 15u128) as int
}

/// How many hyphens stand before position `i` of an id's text.
pub open spec fn hyphens_before(i: int) -> int {
    if i < 8 { 0 } else if i < 13 { 1 } else if i < 18 { 2 } else if i < 23 { 3 } else { 4 }
}

/// The hyphenated text of a 128-bit uuid: its 32 lowercase hex digits, most
/// significant first, grouped 8-4-4-4-12.
pub open spec fn uuid_text(id: u128) -> Seq<char> {
    Seq::new(36, |i: int| if i == 8 || i == 13 || i == 18 || i == 23 {
        '-'
    } else {
        hex_digit(uuid_nibble(id, i - hyphens_before(i)))
    })
}

/// The text that a permissive UTF-8 decoding makes of some bytes.
pub uninterp spec fn lossy_text(bytes: Seq<u8>) -> Seq<char>;

/// The geometry that a session's pseudo-terminal is opened or resized to.
pub fn pty_size(rows: u16, cols: u16) -> (r: portable_pty::PtySize)
    ensures
        r.rows == rows,
        r.cols == cols,
        r.pixel_width == 0,
        r.pixel_height == 0,
{
    portable_pty::PtySize { rows, cols, pixel_width: 0, pixel_height: 0 }
}

/// An open pseudo-terminal pair, with the geometry last set through it.
pub struct SessionPty {
    pair: portable_pty::PtyPair,
    geometry: Ghost<(u16, u16)>,
}

impl SessionPty {
    /// The rows and columns the pair was last opened or resized to.
    pub closed spec fn geometry(&self) -> (u16, u16) {
        self.geometry@
    }

    /// The pair itself, for spawning a command on it and taking its streams.
    pub fn pair(&self) -> (r: &portable_pty::PtyPair) {
        &self.pair
    }
}

/// Relies on portable_pty::native_pty_system and PtySystem::openpty: opens a
/// pseudo-terminal pair of the given size; whether it succeeds is the OS's call.
#[verifier::external_body]
pub(crate) fn open_pty(size: portable_pty::PtySize) -> (r: Result<SessionPty, String>)
    ensures
        r matches Ok(p) ==> p.geometry() == (size.rows, size.cols),
{
    let geometry = Ghost((size.rows, size.cols));
    let pair = portable_pty::native_pty_system().openpty(size).map_err(|e| e.to_string())?;
    Ok(SessionPty { pair, geometry })
}

/// Relies on MasterPty::resize: asks the OS to change the pair's geometry,
/// which an error leaves as it was.
#[verifier::external_body]
pub(crate) fn resize_pty(pty: &mut SessionPty, size: portable_pty::PtySize) -> (r: Result<(), String>)
    ensures
        r is Ok ==> final(pty).geometry() == (size.rows, size.cols),
        r is Err ==> final(pty).geometry() == old(pty).geometry(),
{
    pty.pair.master.resize(size).map_err(|e| e.to_string())
}

/// The user's default shell, with the environment overrides and working
/// directory set on it so far.
pub struct ShellCommand {
    cmd: portable_pty::CommandBuilder,
    env: Ghost<Map<Seq<char>, Seq<char>>>,
    cwd: Ghost<Option<Seq<char>>>,
}

impl ShellCommand {
    /// The environment variables set on the command, over the inherited ones.
    pub closed spec fn env_overrides(&self) -> Map<Seq<char>, Seq<char>> {
        self.env@
    }

    /// The working directory set on the command, if any.
    pub closed spec fn cwd(&self) -> Option<Seq<char>> {
        self.cwd@
    }

    /// The command, ready to be spawned.
    pub fn into_builder(self) -> (r: portable_pty::CommandBuilder) {
        self.cmd
    }
}

/// No environment variable set.
pub open spec fn no_overrides() -> Map<Seq<char>, Seq<char>> {
    Map::empty()
}

/// Relies on CommandBuilder::new_default_prog: the user's default interactive
/// shell, with no variable or directory set on it.
#[verifier::external_body]
pub(crate) fn default_shell() -> (r: ShellCommand)
    ensures
        r.env_overrides() == no_overrides(),
        r.cwd() is None,
{
    ShellCommand { cmd: portable_pty::CommandBuilder::new_default_prog(), env: Ghost(Map::empty()), cwd: Ghost(None) }
}

/// Relies on CommandBuilder::env: sets one environment variable of the command.
#[verifier::external_body]
pub(crate) fn set_command_env(cmd: &mut ShellCommand, key: &str, value: &str)
    ensures
        final(cmd).env_overrides() == old(cmd).env_overrides().insert(key@, value@),
        final(cmd).cwd() == old(cmd).cwd(),
{
    cmd.cmd.env(key, value);
}

/// Relies on CommandBuilder::cwd: sets the command's working directory.
#[verifier::external_body]
pub(crate) fn set_command_cwd(cmd: &mut ShellCommand, dir: &str)
    ensures
        final(cmd).env_overrides() == old(cmd).env_overrides(),
        final(cmd).cwd() == Some(dir@),
{
    cmd.cmd.cwd(dir);
}

/// A byte sink bound to a session's input, with the bytes it has accepted
/// and whether a flush followed the last write.
pub struct SessionWriter<W> {
    sink: W,
    sent: Ghost<Seq<u8>>,
    flushed: Ghost<bool>,
}

impl<W> SessionWriter<W> {
    /// The bytes the sink has accepted, in order.
    pub closed spec fn sent(&self) -> Seq<u8> {
        self.sent@
    }

    /// Whether a flush succeeded after the last write.
    pub closed spec fn flushed(&self) -> bool {
        self.flushed@
    }

    /// A fresh sink that has accepted nothing.
    pub fn new(sink: W) -> (r: Self)
        ensures
            r.sent() == Seq::<u8>::empty(),
            r.flushed(),
    {
        SessionWriter { sink, sent: Ghost(Seq::empty()), flushed: Ghost(true) }
    }
}

/// Relies on std::io::Write::write_all: on success the sink has accepted all
/// the bytes, after those it had.
#[verifier::external_body]
pub(crate) fn write_all_to<W: std::io::Write>(w: &mut SessionWriter<W>, data: &[u8]) -> (r: Result<(), String>)
    ensures
        r is Ok ==> final(w).sent() == old(w).sent() + data@ && !final(w).flushed(),
{
    w.sink.write_all(data).map_err(|e| e.to_string())
}

/// Relies on std::io::Write::flush: delivers what the sink has buffered.
#[verifier::external_body]
pub(crate) fn flush_to<W: std::io::Write>(w: &mut SessionWriter<W>) -> (r: Result<(), String>)
    ensures
        final(w).sent() == old(w).sent(),
        r is Ok ==> final(w).flushed(),
{
    w.sink.flush().map_err(|e| e.to_string())
}

/// Relies on uuid::Uuid::new_v4: a random 128-bit id; nothing is known of its value.
#[verifier::external_body]
pub(crate) fn random_session_id() -> (r: u128) {
    uuid::Uuid::new_v4().as_u128()
}

/// Relies on uuid::Uuid::from_u128 and its `Display`: the hyphenated text of an id.
#[verifier::external_body]
pub(crate) fn id_text(id: u128) -> (r: String)
    ensures
        r@ == uuid_text(id),
{
    uuid::Uuid::from_u128(id).to_string()
}

/// Relies on dirs::home_dir: the current user's home directory, if one can be found.
#[verifier::external_body]
pub(crate) fn home_directory() -> (r: Option<String>) {
    dirs::home_dir().map(|p| p.to_string_lossy().into_owned())
}

/// Relies on String::from_utf8_lossy: invalid sequences become U+FFFD, so the
/// text is empty exactly when the bytes are.
#[verifier::external_body]
pub(crate) fn decode_lossy(bytes: &[u8]) -> (r: String)
    ensures
        r@ == lossy_text(bytes@),
        r@.len() == 0 <==> bytes@.len() == 0,
{
    String::from_utf8_lossy(bytes).into_owned()
}

/// The lowercase form of a text.
pub uninterp spec fn lower_of(s: Seq<char>) -> Seq<char>;

/// Relies on str::to_lowercase: the lowercase form, which depends on the
/// characters alone.
#[verifier::external_body]
pub(crate) fn lowercase(s: &str) -> (r: String)
    ensures
        r@ == lower_of(s@),
{
    s.to_lowercase()
}

} // verus!
