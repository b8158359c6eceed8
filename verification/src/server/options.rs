//! What the server is started with.

use vstd::prelude::*;

verus! {

/// The options of the command line.
#[derive(Debug)]
pub struct Options {
    /// Port for the server to listen to.
    pub port: u16,
    /// Path of the socket for the server to listen to.
    pub unix_socket: Option<String>,
    /// File descriptor to use as a listening socket.
    pub fd: Option<i32>,
    /// Directory with wasm files, for a single tenant.
    pub wasm_dir: Option<String>,
}

/// How the server listens.
#[derive(Debug)]
pub enum Listen {
    /// On a socket that the parent process has opened.
    Fd(i32),
    /// On a socket at this path.
    UnixSocket(String),
    /// On a port of the local host, serving the one database of the test
    /// mode from this directory.
    Http { port: u16, wasm_dir: String },
}

/// How the server listens, as a mathematical value.
pub ghost enum ListenView {
    Fd(i32),
    UnixSocket(Seq<char>),
    Http { port: u16, wasm_dir: Seq<char> },
}

impl View for Listen {
    type V = ListenView;

    open spec fn view(&self) -> ListenView {
        match self {
            Listen::Fd(fd) => ListenView::Fd(*fd),
            Listen::UnixSocket(path) => ListenView::UnixSocket(path@),
            Listen::Http { port, wasm_dir } => ListenView::Http { port: *port, wasm_dir: wasm_dir@ },
        }
    }
}

/// The options are missing the directory that the test mode needs.
#[derive(Clone, Copy, Debug, PartialEq, Eq)]
pub struct WasmDirRequired;

/// The one database of the test mode.
pub const TEST_DATABASE: &'static str = "edgedb";

impl WasmDirRequired {
    /// What the user is told.
    pub fn to_string(&self) -> (s: String)
        ensures
            s@ == "--wasm-dir is required in HTTP (test) mode"@,
    {
        "--wasm-dir is required in HTTP (test) mode".to_owned()
    }
}

/// Two options that do not go together.
#[derive(Clone, Copy, Debug, PartialEq, Eq)]
pub enum Conflict {
    /// A file descriptor and a socket path.
    FdAndUnixSocket,
    /// A file descriptor and a directory of modules.
    FdAndWasmDir,
    /// A socket path and a directory of modules.
    UnixSocketAndWasmDir,
}

impl Options {
    /// The first pair of options that do not go together: the server
    /// listens in one way, and only the test mode on a port takes a
    /// directory of modules.
    pub open spec fn conflict_of(&self) -> Option<Conflict> {
        if self.fd is Some && self.unix_socket is Some {
            Some(Conflict::FdAndUnixSocket)
        } else if self.fd is Some && self.wasm_dir is Some {
            Some(Conflict::FdAndWasmDir)
        } else if self.unix_socket is Some && self.wasm_dir is Some {
            Some(Conflict::UnixSocketAndWasmDir)
        } else {
            None
        }
    }

    /// Checks that the options go together.
    pub fn check(&self) -> (r: Result<(), Conflict>)
        ensures
            match r {
                Ok(_) => self.conflict_of() is None,
                Err(conflict) => self.conflict_of() == Some(conflict),
            },
    {
        if self.fd.is_some() && self.unix_socket.is_some() {
            Err(Conflict::FdAndUnixSocket)
        } else if self.fd.is_some() && self.wasm_dir.is_some() {
            Err(Conflict::FdAndWasmDir)
        } else if self.unix_socket.is_some() && self.wasm_dir.is_some() {
            Err(Conflict::UnixSocketAndWasmDir)
        } else {
            Ok(())
        }
    }

    /// How the options ask the server to listen: on the file descriptor
    /// where one is given, else on the socket where one is given, else on
    /// the port, which takes the directory of the modules.
    pub open spec fn listen_of(&self) -> Option<ListenView> {
        match (self.fd, self.unix_socket, self.wasm_dir) {
            (Some(fd), _, _) => Some(ListenView::Fd(fd)),
            (None, Some(path), _) => Some(ListenView::UnixSocket(path@)),
            (None, None, Some(dir)) => Some(ListenView::Http { port: self.port, wasm_dir: dir@ }),
            (None, None, None) => None,
        }
    }

    /// How the server is to listen. Without a file descriptor and without
    /// a socket the server runs in test mode, which needs the directory of
    /// the modules.
    pub fn listen(&self) -> (r: Result<Listen, WasmDirRequired>)
        ensures
            match r {
                Ok(listen) => self.listen_of() == Some(listen@),
                Err(_) => self.listen_of() is None,
            },
    {
        if let Some(fd) = self.fd {
            return Ok(Listen::Fd(fd));
        }
        if let Some(path) = &self.unix_socket {
            return Ok(Listen::UnixSocket(crate::data::copy_text(path)));
        }
        match &self.wasm_dir {
            Some(dir) => Ok(Listen::Http { port: self.port, wasm_dir: crate::data::copy_text(dir) }),
            None => Err(WasmDirRequired),
        }
    }
}

} // verus!
