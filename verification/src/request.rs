//! The calls made on the bus: whom each addresses and what it carries.

use vstd::prelude::*;

verus! {

/// One argument of a call.
#[derive(Clone, Debug, PartialEq, Eq)]
pub enum Argument {
    Text(String),
    Number(u32),
    /// The user's credential, which whoever holds it puts in this place.
    Credential,
}

/// An argument as a value.
pub enum ArgumentView {
    Text(Seq<char>),
    Number(u32),
    Credential,
}

impl DeepView for Argument {
    type V = ArgumentView;

    open spec fn deep_view(&self) -> ArgumentView {
        match self {
            Argument::Text(text) => ArgumentView::Text(text@),
            Argument::Number(number) => ArgumentView::Number(*number),
            Argument::Credential => ArgumentView::Credential,
        }
    }
}

/// A call on the bus.
#[derive(Clone, Debug, PartialEq, Eq)]
pub enum Request {
    /// Asks KeePassXC whether it is there.
    Ping,
    /// Asks the bus which process owns the name of KeePassXC.
    OwnerPid,
    /// Asks the service manager for the unit that the process belongs to.
    UnitByPid { pid: u32 },
    /// Asks the service manager how the unit was started.
    ExecStart { unit: String },
    /// Tells KeePassXC to open the database at `path` with the credential.
    OpenDatabase { path: String },
}

/// A call as a value.
pub enum RequestView {
    Ping,
    OwnerPid,
    UnitByPid { pid: u32 },
    ExecStart { unit: Seq<char> },
    OpenDatabase { path: Seq<char> },
}

impl View for Request {
    type V = RequestView;

    open spec fn view(&self) -> RequestView {
        match self {
            Request::Ping => RequestView::Ping,
            Request::OwnerPid => RequestView::OwnerPid,
            Request::UnitByPid { pid } => RequestView::UnitByPid { pid: *pid },
            Request::ExecStart { unit } => RequestView::ExecStart { unit: unit@ },
            Request::OpenDatabase { path } => RequestView::OpenDatabase { path: path@ },
        }
    }
}

/// The name under which KeePassXC is known on the bus.
pub open spec fn keepassxc_name() -> Seq<char> {
    "org.keepassxc.KeePassXC.MainWindow"@
}

impl RequestView {
    /// The name of the peer that the call is sent to.
    pub open spec fn destination(self) -> Seq<char> {
        match self {
            RequestView::Ping => keepassxc_name(),
            RequestView::OwnerPid => "org.freedesktop.DBus"@,
            RequestView::UnitByPid { .. } => "org.freedesktop.systemd1"@,
            RequestView::ExecStart { .. } => "org.freedesktop.systemd1"@,
            RequestView::OpenDatabase { .. } => keepassxc_name(),
        }
    }

    /// The object that the call is made on.
    pub open spec fn object(self) -> Seq<char> {
        match self {
            RequestView::Ping => "/"@,
            RequestView::OwnerPid => "/"@,
            RequestView::UnitByPid { .. } => "/org/freedesktop/systemd1"@,
            RequestView::ExecStart { unit } => unit,
            RequestView::OpenDatabase { .. } => "/keepassxc"@,
        }
    }

    /// The interface that the called method belongs to.
    pub open spec fn interface(self) -> Seq<char> {
        match self {
            RequestView::Ping => "org.freedesktop.DBus.Peer"@,
            RequestView::OwnerPid => "org.freedesktop.DBus"@,
            RequestView::UnitByPid { .. } => "org.freedesktop.systemd1.Manager"@,
            RequestView::ExecStart { .. } => "org.freedesktop.DBus.Properties"@,
            RequestView::OpenDatabase { .. } => "org.keepassxc.KeePassXC.MainWindow"@,
        }
    }

    /// The called method.
    pub open spec fn member(self) -> Seq<char> {
        match self {
            RequestView::Ping => "Ping"@,
            RequestView::OwnerPid => "GetConnectionUnixProcessID"@,
            RequestView::UnitByPid { .. } => "GetUnitByPID"@,
            RequestView::ExecStart { .. } => "Get"@,
            RequestView::OpenDatabase { .. } => "openDatabase"@,
        }
    }

    /// The arguments, in the order in which they are sent.
    pub open spec fn arguments(self) -> Seq<ArgumentView> {
        match self {
            RequestView::Ping => seq![],
            RequestView::OwnerPid => seq![ArgumentView::Text(keepassxc_name())],
            RequestView::UnitByPid { pid } => seq![ArgumentView::Number(pid)],
            RequestView::ExecStart { .. } => seq![
                ArgumentView::Text("org.freedesktop.systemd1.Service"@),
                ArgumentView::Text("ExecStart"@),
            ],
            RequestView::OpenDatabase { path } => seq![
                ArgumentView::Text(path),
                ArgumentView::Credential,
            ],
        }
    }

    /// Whether an answer is waited for. Whether KeePassXC opened the database
    /// is not this module's business: that call is sent and forgotten.
    pub open spec fn awaits_reply(self) -> bool {
        !(self is OpenDatabase)
    }
}

/// The name under which KeePassXC is known on the bus.
pub fn keepassxc_bus_name() -> (name: &'static str)
    ensures
        name@ == keepassxc_name(),
{
    "org.keepassxc.KeePassXC.MainWindow"
}

impl Request {
    /// The name of the peer that the call is sent to.
    pub fn destination(&self) -> (name: &'static str)
        ensures
            name@ == self@.destination(),
    {
        match self {
            Request::Ping => keepassxc_bus_name(),
            Request::OwnerPid => "org.freedesktop.DBus",
            Request::UnitByPid { .. } => "org.freedesktop.systemd1",
            Request::ExecStart { .. } => "org.freedesktop.systemd1",
            Request::OpenDatabase { .. } => keepassxc_bus_name(),
        }
    }

    /// The object that the call is made on.
    pub fn object(&self) -> (path: &str)
        ensures
            path@ == self@.object(),
    {
        match self {
            Request::Ping => "/",
            Request::OwnerPid => "/",
            Request::UnitByPid { .. } => "/org/freedesktop/systemd1",
            Request::ExecStart { unit } => unit.as_str(),
            Request::OpenDatabase { .. } => "/keepassxc",
        }
    }

    /// The interface that the called method belongs to.
    pub fn interface(&self) -> (name: &'static str)
        ensures
            name@ == self@.interface(),
    {
        match self {
            Request::Ping => "org.freedesktop.DBus.Peer",
            Request::OwnerPid => "org.freedesktop.DBus",
            Request::UnitByPid { .. } => "org.freedesktop.systemd1.Manager",
            Request::ExecStart { .. } => "org.freedesktop.DBus.Properties",
            Request::OpenDatabase { .. } => "org.keepassxc.KeePassXC.MainWindow",
        }
    }

    /// The called method.
    pub fn member(&self) -> (name: &'static str)
        ensures
            name@ == self@.member(),
    {
        match self {
            Request::Ping => "Ping",
            Request::OwnerPid => "GetConnectionUnixProcessID",
            Request::UnitByPid { .. } => "GetUnitByPID",
            Request::ExecStart { .. } => "Get",
            Request::OpenDatabase { .. } => "openDatabase",
        }
    }

    /// The arguments, in the order in which they are sent.
    pub fn arguments(&self) -> (arguments: Vec<Argument>)
        ensures
            arguments.deep_view() == self@.arguments(),
    {
        let mut out: Vec<Argument> = Vec::new();
        match self {
            Request::Ping => {},
            Request::OwnerPid => {
                out.push(Argument::Text(String::from_str(keepassxc_bus_name())));
            },
            Request::UnitByPid { pid } => {
                out.push(Argument::Number(*pid));
            },
            Request::ExecStart { .. } => {
                out.push(Argument::Text(String::from_str("org.freedesktop.systemd1.Service")));
                out.push(Argument::Text(String::from_str("ExecStart")));
            },
            Request::OpenDatabase { path } => {
                out.push(Argument::Text(path.clone()));
                out.push(Argument::Credential);
            },
        }
        out
    }

    /// Whether an answer is waited for.
    pub fn awaits_reply(&self) -> (awaits: bool)
        ensures
            awaits == self@.awaits_reply(),
    {
        match self {
            Request::OpenDatabase { .. } => false,
            _ => true,
        }
    }
}

} // verus!
