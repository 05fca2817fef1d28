//! Data structures describing how to reach one robot controller interface:
//! which interface, with which access mode, at which address, and on which
//! TCP port.

use vstd::prelude::*;

verus! {

/// Whether you are able to send commands to the robot or only read its state.
#[derive(Copy, Clone, PartialEq, Eq, Structural, PartialOrd, Ord, Debug)]
pub enum Mode {
    /// Read only access.
    ReadOnly,
    /// Read and write access.
    ReadWrite,
}

/// Which interface you intend to connect to the robot with.
#[derive(Copy, Clone, PartialEq, Eq, Structural, PartialOrd, Ord, Debug)]
pub enum Interface {
    /// Primary interface.
    Primary,
    /// Secondary interface.
    Secondary,
    /// Real time interface.
    RealTime,
    /// Real time data exchange interface.
    RTDE,
}

/// Offset that an access mode adds to a port number: read/write access moves
/// the port up by ten.
pub open spec fn mode_offset(m: Mode) -> int {
    match m {
        Mode::ReadOnly => 0,
        Mode::ReadWrite => 10,
    }
}

/// Offset that an interface adds to the controller's port base.
pub open spec fn interface_offset(i: Interface) -> int {
    match i {
        Interface::Primary => 1,
        Interface::Secondary => 2,
        Interface::RealTime => 3,
        Interface::RTDE => 4,
    }
}

/// The port a controller listens on for a given interface and access mode.
/// RTDE negotiates access in-band, so its port ignores the mode.
pub open spec fn port_of(i: Interface, m: Mode) -> int {
    30000 + interface_offset(i) + if i is RTDE {
        0
    } else {
        mode_offset(m)
    }
}

/// Minimum period, in milliseconds, at which an interface updates.
pub open spec fn period_of(i: Interface) -> int {
    match i {
        Interface::Primary => 100,
        Interface::Secondary => 100,
        Interface::RealTime => 2,
        Interface::RTDE => 2,
    }
}

/// Maximum frequency, in hertz, at which an interface updates.
pub open spec fn frequency_of(i: Interface) -> int {
    match i {
        Interface::Primary => 10,
        Interface::Secondary => 10,
        Interface::RealTime => 500,
        Interface::RTDE => 500,
    }
}

impl Interface {
    /// Minimum period (ms) of connection, except for RTDE, which is guaranteed.
    pub fn period(&self) -> (r: usize)
        ensures
            r == period_of(*self),
    {
        match self {
            Self::Primary => 100,
            Self::Secondary => 100,
            Self::RealTime => 2,
            Self::RTDE => 2,
        }
    }

    /// Maximum frequency (Hz) of connection, except for RTDE, which is guaranteed.
    pub fn frequency(&self) -> (r: usize)
        ensures
            r == frequency_of(*self),
    {
        match self {
            Self::Primary => 10,
            Self::Secondary => 10,
            Self::RealTime => 500,
            Self::RTDE => 500,
        }
    }
}

impl Default for Interface {
    /// The interface used when none is chosen: the secondary one.
    fn default() -> (r: Self)
        ensures
            r == Interface::Secondary,
    {
        Interface::Secondary
    }
}

impl Default for Mode {
    /// The access mode used when none is chosen: read only.
    fn default() -> (r: Self)
        ensures
            r == Mode::ReadOnly,
    {
        Mode::ReadOnly
    }
}

#[derive(Copy, Clone, PartialEq, Eq, Structural, PartialOrd, Ord, Debug)]
struct Meta {
    interface: Interface,
    mode: Mode,
}

impl Meta {
    fn port(&self) -> (r: u16)
        ensures
            r == port_of(self.interface, self.mode),
    {
        let base: u16 = 30000;
        let interface: u16 = match self.interface {
            Interface::Primary => 1,
            Interface::Secondary => 2,
            Interface::RealTime => 3,
            Interface::RTDE => 4,
        };
        let mode: u16 = if self.interface == Interface::RTDE {
            0
        } else {
            match self.mode {
                Mode::ReadOnly => 0,
                Mode::ReadWrite => 10,
            }
        };
        base + interface + mode
    }
}

#[derive(Copy, Clone, PartialEq, Eq, PartialOrd, Ord, Debug)]
enum Host<'a> {
    IP(&'a [u8; 4]),
    Hostname(&'a str),
}

/// The address a connection falls back to when none is given.
const UNSPECIFIED: [u8; 4] = [0, 0, 0, 0];

/// Connection to a specific robot.
#[non_exhaustive]
#[derive(Copy, Clone, PartialEq, Eq, PartialOrd, Ord, Debug)]
pub struct Connection<'a> {
    port: u16,
    host: Host<'a>,
    meta: Meta,
}

impl<'a> Connection<'a> {
    /// Which interface this connection goes through.
    pub closed spec fn spec_interface(self) -> Interface {
        self.meta.interface
    }

    /// Which access mode this connection was built with.
    pub closed spec fn spec_mode(self) -> Mode {
        self.meta.mode
    }

    /// The port this connection contacts the controller on.
    pub closed spec fn spec_port(self) -> int {
        self.port as int
    }

    /// The IP octets this connection holds, if it was built with an IP.
    pub closed spec fn spec_ip(self) -> Option<[u8; 4]> {
        match self.host {
            Host::IP(octet) => Some(*octet),
            Host::Hostname(_) => None,
        }
    }

    /// The hostname this connection holds, if it was built with one.
    pub closed spec fn spec_hostname(self) -> Option<Seq<char>> {
        match self.host {
            Host::IP(_) => None,
            Host::Hostname(host) => Some(host@),
        }
    }

    /// The stored port is never out of step with the interface and mode.
    #[verifier::type_invariant]
    spec fn port_consistent(self) -> bool {
        self.spec_port() == port_of(self.spec_interface(), self.spec_mode())
    }

    /// Creates and initialises a connection.
    /// It is assumed you will create a connection with a working ip address.
    #[must_use]
    pub fn new_ip(interface: Interface, mode: Mode, ip: &'a [u8; 4]) -> (r: Self)
        ensures
            r.spec_interface() == interface,
            r.spec_mode() == mode,
            r.spec_port() == port_of(interface, mode),
            r.spec_ip() == Some(*ip),
            r.spec_hostname() is None,
    {
        let meta = Meta { interface, mode };
        Self { meta, port: meta.port(), host: Host::IP(ip) }
    }

    /// Creates and initialises a connection.
    /// It is assumed you will create a connection with a correct hostname connected to a DNS.
    /// The hostname of the robot by default is (ur-'serial number').
    /// The serial number is an 11 or 10 digit base-10 number representing manufacturing information.
    #[must_use]
    pub fn new_hostname(interface: Interface, mode: Mode, hostname: &'a str) -> (r: Self)
        ensures
            r.spec_interface() == interface,
            r.spec_mode() == mode,
            r.spec_port() == port_of(interface, mode),
            r.spec_hostname() == Some(hostname@),
            r.spec_ip() is None,
    {
        let meta = Meta { interface, mode };
        Self { meta, port: meta.port(), host: Host::Hostname(hostname) }
    }

    /// Whether the connection is read only.
    #[must_use]
    pub fn read_only(&self) -> (r: bool)
        ensures
            r == (self.spec_mode() == Mode::ReadOnly),
    {
        self.meta.mode == Mode::ReadOnly
    }

    /// Which interface to connect to the robot through.
    #[must_use]
    pub fn interface(&self) -> (r: Interface)
        ensures
            r == self.spec_interface(),
    {
        self.meta.interface
    }

    /// The port you are connecting to the robot through. Always the value the
    /// fixed port table gives for the connection's interface and mode.
    #[must_use]
    pub fn port(&self) -> (r: u16)
        ensures
            r == port_of(self.spec_interface(), self.spec_mode()),
    {
        proof {
            use_type_invariant(self);
        }
        self.port
    }

    /// The IP address of the robot, if the connection was built with one.
    #[must_use]
    pub fn ip_octet(&self) -> (r: Option<&[u8; 4]>)
        ensures
            match r {
                Some(octet) => self.spec_ip() == Some(*octet),
                None => self.spec_ip() is None,
            },
    {
        if let Host::IP(octet) = self.host {
            Some(octet)
        } else {
            None
        }
    }

    /// The hostname of the robot (ur-'serial number'), if the connection was
    /// built with one.
    /// The serial number is an 11 or 10 digit base-10 number representing manufacturing information.
    #[must_use]
    pub fn host_name(&self) -> (r: Option<&str>)
        ensures
            match r {
                Some(host) => self.spec_hostname() == Some(host@),
                None => self.spec_hostname() is None,
            },
    {
        if let Host::Hostname(host) = self.host {
            Some(host)
        } else {
            None
        }
    }
}

impl Default for Connection<'static> {
    /// The connection used when none is described: read-only access to the
    /// secondary interface at the unspecified address.
    fn default() -> (r: Self)
        ensures
            r.spec_interface() == Interface::Secondary,
            r.spec_mode() == Mode::ReadOnly,
            r.spec_port() == port_of(Interface::Secondary, Mode::ReadOnly),
            r.spec_ip() == Some([0u8, 0u8, 0u8, 0u8]),
            r.spec_hostname() is None,
    {
        let meta = Meta { interface: Interface::default(), mode: Mode::default() };
        Self { meta, port: meta.port(), host: Host::IP(&UNSPECIFIED) }
    }
}

/// The fixed port table, spelled out: every interface and mode pair lands on
/// its documented port, and RTDE's port never shifts with the mode.
pub proof fn lemma_port_table()
    ensures
        port_of(Interface::Primary, Mode::ReadOnly) == 30001,
        port_of(Interface::Primary, Mode::ReadWrite) == 30011,
        port_of(Interface::Secondary, Mode::ReadOnly) == 30002,
        port_of(Interface::Secondary, Mode::ReadWrite) == 30012,
        port_of(Interface::RealTime, Mode::ReadOnly) == 30003,
        port_of(Interface::RealTime, Mode::ReadWrite) == 30013,
        port_of(Interface::RTDE, Mode::ReadOnly) == 30004,
        port_of(Interface::RTDE, Mode::ReadWrite) == 30004,
{
}

/// A connection holds exactly one kind of address: IP octets or a hostname,
/// never both and never neither.
pub proof fn lemma_address_exclusive(c: Connection<'_>)
    ensures
        c.spec_ip() is Some <==> c.spec_hostname() is None,
{
}

} // verus!
