//! Daemons that run as a thread or as a process of their own: where their
//! binary lies, and what their end means for the one who waits.
use std::fmt::{Debug, Display};
use std::path::PathBuf;
use vstd::prelude::*;

verus! {

#[verifier::external_type_specification]
#[verifier::external_body]
pub struct ExIoError(amplify::IoError);

#[verifier::external_type_specification]
#[verifier::external_body]
pub struct ExErrorKind(std::io::ErrorKind);

#[verifier::external_type_specification]
#[verifier::external_body]
pub struct ExPathBuf(std::path::PathBuf);

/// A daemon that can be launched under its name.
pub trait Launcher: Clone + Debug + Display + Send + 'static {
    /// The error with which the daemon ends
    type RunError: Send + 'static;

    /// What the daemon is started with
    type Config: Send + 'static;

    /// The name of the binary of the daemon.
    fn bin_name(&self) -> &'static str;

    /// Runs the daemon. A daemon runs until it fails.
    fn run_impl(self, config: Self::Config) -> Result<(), Self::RunError>;
}

/// Why a daemon is not running.
#[derive(Debug)]
pub enum LauncherError<DaemonName: Launcher> {
    /// Tor is not yet supported
    TorNotSupportedYet,
    /// the thread has exited with an error
    ThreadAborted(DaemonName, DaemonName::RunError),
    /// the thread failed to launch due to an I/O error
    ThreadLaunch(DaemonName, amplify::IoError),
    /// the thread could not be joined
    ThreadJoin(DaemonName),
    /// the process has exited with a status that is not zero; without a
    /// status where a signal ended it
    ProcessAborted(DaemonName, Option<i32>),
    /// the process failed to launch due to an I/O error
    ProcessLaunch(DaemonName, amplify::IoError),
}

/// What waiting for a daemon gave.
pub enum DaemonExit<E> {
    /// The process was waited for: its exit status, or the I/O error of
    /// the wait.
    Process(Result<Option<i32>, amplify::IoError>),
    /// The thread was joined: what the daemon returned, or nothing where it
    /// panicked.
    Thread(Option<Result<(), E>>),
}

/// What the end of a daemon means for the one who waited: a process that
/// exits with status zero and a thread that returns without an error have
/// completed; everything else is an error that names the daemon.
pub open spec fn join_result<D: Launcher>(name: D, exit: DaemonExit<D::RunError>) -> Result<
    (),
    LauncherError<D>,
> {
    match exit {
        DaemonExit::Process(Err(io)) => Err(LauncherError::ProcessLaunch(name, io)),
        DaemonExit::Process(Ok(status)) => if status == Some(0i32) {
            Ok(())
        } else {
            Err(LauncherError::ProcessAborted(name, status))
        },
        DaemonExit::Thread(None) => Err(LauncherError::ThreadJoin(name)),
        DaemonExit::Thread(Some(Err(err))) => Err(LauncherError::ThreadAborted(name, err)),
        DaemonExit::Thread(Some(Ok(()))) => Ok(()),
    }
}

impl<E> DaemonExit<E> {
    /// Says what the end of the daemon of the given name means for the one
    /// who waited.
    pub fn join<D: Launcher<RunError = E>>(self, name: D) -> (r: Result<(), LauncherError<D>>)
        ensures
            r == join_result(name, self),
    {
        match self {
            DaemonExit::Process(Err(io)) => Err(LauncherError::ProcessLaunch(name, io)),
            DaemonExit::Process(Ok(status)) => match status {
                Some(code) => if code == 0 {
                    Ok(())
                } else {
                    Err(LauncherError::ProcessAborted(name, status))
                },
                None => Err(LauncherError::ProcessAborted(name, status)),
            },
            DaemonExit::Thread(None) => Err(LauncherError::ThreadJoin(name)),
            DaemonExit::Thread(Some(Err(err))) => Err(LauncherError::ThreadAborted(name, err)),
            DaemonExit::Thread(Some(Ok(()))) => Ok(()),
        }
    }
}

/// A daemon thread whose daemon fails is reported as aborted with that
/// error, and a daemon process that exits with a status other than zero
/// as aborted with that status, whatever the daemon.
pub proof fn lemma_join_parity<D: Launcher>(name: D, err: D::RunError, status: i32)
    requires
        status != 0,
    ensures
        join_result(name, DaemonExit::Thread(Some(Err(err)))) == Err::<(), LauncherError<D>>(
            LauncherError::ThreadAborted(name, err),
        ),
        join_result(name, DaemonExit::<D::RunError>::Process(Ok(Some(status)))) == Err::<
            (),
            LauncherError<D>,
        >(LauncherError::ProcessAborted(name, Some(status))),
{
}

/// The error with which a daemon thread ends. A daemon never returns
/// without one.
pub fn crashed<E>(result: Result<(), E>) -> (err: E)
    requires
        result is Err,
    ensures
        result == Err::<(), E>(err),
{
    match result {
        Err(err) => err,
        Ok(()) => vstd::pervasive::unreached(),
    }
}

/// The path that `PathBuf::pop` of std leaves: the parent of the path, or
/// the path itself where it has none.
pub uninterp spec fn path_parent(path: PathBuf) -> PathBuf;

/// The path that `PathBuf::push` of std makes of a path and a name.
pub uninterp spec fn path_joined(path: PathBuf, name: Seq<char>) -> PathBuf;

/// The path that `PathBuf::set_extension` of std makes of a path and an
/// extension.
pub uninterp spec fn path_with_extension(path: PathBuf, extension: Seq<char>) -> PathBuf;

/// `PathBuf::pop` of std.
#[verifier::external_body]
fn path_pop(path: &mut PathBuf)
    ensures
        *final(path) == path_parent(*old(path)),
{
    path.pop();
}

/// `PathBuf::push` of std.
#[verifier::external_body]
fn path_push(path: &mut PathBuf, name: &str)
    ensures
        *final(path) == path_joined(*old(path), name@),
{
    path.push(name);
}

/// Whether a text holds no path separator of any platform.
pub open spec fn no_separator(text: Seq<char>) -> bool {
    forall|i: int| 0 <= i < text.len() ==> text[i] != '/' && text[i] != '\\'
}

/// `PathBuf::set_extension` of std, which takes no extension that holds a
/// path separator.
#[verifier::external_body]
fn path_set_extension(path: &mut PathBuf, extension: &str)
    requires
        no_separator(extension@),
    ensures
        *final(path) == path_with_extension(*old(path), extension@),
{
    path.set_extension(extension);
}

/// Where the binary of a daemon lies: beside the running executable, under
/// the name of the daemon's binary, with `.exe` on Windows.
pub open spec fn bin_path_of(exe: PathBuf, bin_name: Seq<char>, windows: bool) -> PathBuf {
    let path = path_joined(path_parent(exe), bin_name);
    if windows {
        path_with_extension(path, "exe"@)
    } else {
        path
    }
}

/// Finds the binary of a daemon from the path of the running executable.
pub fn bin_path(exe: PathBuf, bin_name: &str, windows: bool) -> (path: PathBuf)
    ensures
        path == bin_path_of(exe, bin_name@, windows),
{
    let mut path = exe;
    path_pop(&mut path);
    path_push(&mut path, bin_name);
    if windows {
        proof {
            reveal_strlit("exe");
        }
        path_set_extension(&mut path, "exe");
    }
    path
}

} // verus!
