//! The protocol interfaces this side implements, with their highest versions.
use vstd::prelude::*;
use vstd::string::*;

verus! {

/// A protocol interface known to this implementation.
#[derive(Clone, Copy, Debug, PartialEq, Eq, Structural)]
pub enum Interface {
    Callback,
    Connection,
    Seat,
    Device,
    Pingpong,
    Keyboard,
    Pointer,
    PointerAbsolute,
    Button,
    Scroll,
    Touchscreen,
}

/// Number of interfaces in the table.
pub const INTERFACE_COUNT: usize = 11;

/// Wire name of an interface.
pub open spec fn wire_name(i: Interface) -> Seq<char> {
    match i {
        Interface::Callback => "ei_callback"@,
        Interface::Connection => "ei_connection"@,
        Interface::Seat => "ei_seat"@,
        Interface::Device => "ei_device"@,
        Interface::Pingpong => "ei_pingpong"@,
        Interface::Keyboard => "ei_keyboard"@,
        Interface::Pointer => "ei_pointer"@,
        Interface::PointerAbsolute => "ei_pointer_absolute"@,
        Interface::Button => "ei_button"@,
        Interface::Scroll => "ei_scroll"@,
        Interface::Touchscreen => "ei_touchscreen"@,
    }
}

/// The interface a wire name denotes, if it is one of the table.
pub open spec fn interface_named(s: Seq<char>) -> Option<Interface> {
    if s == "ei_callback"@ {
        Some(Interface::Callback)
    } else if s == "ei_connection"@ {
        Some(Interface::Connection)
    } else if s == "ei_seat"@ {
        Some(Interface::Seat)
    } else if s == "ei_device"@ {
        Some(Interface::Device)
    } else if s == "ei_pingpong"@ {
        Some(Interface::Pingpong)
    } else if s == "ei_keyboard"@ {
        Some(Interface::Keyboard)
    } else if s == "ei_pointer"@ {
        Some(Interface::Pointer)
    } else if s == "ei_pointer_absolute"@ {
        Some(Interface::PointerAbsolute)
    } else if s == "ei_button"@ {
        Some(Interface::Button)
    } else if s == "ei_scroll"@ {
        Some(Interface::Scroll)
    } else if s == "ei_touchscreen"@ {
        Some(Interface::Touchscreen)
    } else {
        None
    }
}

/// Highest version of each interface that this side speaks.
pub open spec fn max_version(i: Interface) -> u32 {
    match i {
        Interface::Callback => 1,
        Interface::Connection => 1,
        Interface::Seat => 1,
        Interface::Device => 1,
        Interface::Pingpong => 1,
        Interface::Keyboard => 1,
        Interface::Pointer => 1,
        Interface::PointerAbsolute => 1,
        Interface::Button => 1,
        Interface::Scroll => 1,
        Interface::Touchscreen => 1,
    }
}

/// Position of an interface in the table.
pub open spec fn spec_index(i: Interface) -> int {
    match i {
        Interface::Callback => 0,
        Interface::Connection => 1,
        Interface::Seat => 2,
        Interface::Device => 3,
        Interface::Pingpong => 4,
        Interface::Keyboard => 5,
        Interface::Pointer => 6,
        Interface::PointerAbsolute => 7,
        Interface::Button => 8,
        Interface::Scroll => 9,
        Interface::Touchscreen => 10,
    }
}

/// The interface at a position of the table.
pub open spec fn spec_at(k: int) -> Interface {
    if k == 0 {
        Interface::Callback
    } else if k == 1 {
        Interface::Connection
    } else if k == 2 {
        Interface::Seat
    } else if k == 3 {
        Interface::Device
    } else if k == 4 {
        Interface::Pingpong
    } else if k == 5 {
        Interface::Keyboard
    } else if k == 6 {
        Interface::Pointer
    } else if k == 7 {
        Interface::PointerAbsolute
    } else if k == 8 {
        Interface::Button
    } else if k == 9 {
        Interface::Scroll
    } else {
        Interface::Touchscreen
    }
}

/// Table positions and interfaces correspond one to one.
pub proof fn lemma_index_at(i: Interface, k: int)
    ensures
        0 <= spec_index(i) < INTERFACE_COUNT,
        spec_at(spec_index(i)) == i,
        0 <= k < INTERFACE_COUNT ==> spec_index(spec_at(k)) == k,
{
}

/// Whether two texts hold the same characters.
pub fn same_text(a: &str, b: &str) -> (r: bool)
    ensures
        r == (a@ == b@),
{
    let n = a.unicode_len();
    if n != b.unicode_len() {
        return false;
    }
    let mut i: usize = 0;
    while i < n
        invariant
            n == a@.len(),
            n == b@.len(),
            i <= n,
            forall|j: int| 0 <= j < i ==> a@[j] == b@[j],
        decreases n - i,
    {
        if a.get_char(i) != b.get_char(i) {
            return false;
        }
        i += 1;
    }
    assert(a@ =~= b@);
    true
}

impl Interface {
    /// Wire name of the interface.
    pub fn name(self) -> (r: &'static str)
        ensures
            r@ == wire_name(self),
    {
        match self {
            Interface::Callback => "ei_callback",
            Interface::Connection => "ei_connection",
            Interface::Seat => "ei_seat",
            Interface::Device => "ei_device",
            Interface::Pingpong => "ei_pingpong",
            Interface::Keyboard => "ei_keyboard",
            Interface::Pointer => "ei_pointer",
            Interface::PointerAbsolute => "ei_pointer_absolute",
            Interface::Button => "ei_button",
            Interface::Scroll => "ei_scroll",
            Interface::Touchscreen => "ei_touchscreen",
        }
    }

    /// Highest version of the interface that this side speaks.
    pub fn server_version(self) -> (r: u32)
        ensures
            r == max_version(self),
    {
        match self {
            Interface::Callback => 1,
            Interface::Connection => 1,
            Interface::Seat => 1,
            Interface::Device => 1,
            Interface::Pingpong => 1,
            Interface::Keyboard => 1,
            Interface::Pointer => 1,
            Interface::PointerAbsolute => 1,
            Interface::Button => 1,
            Interface::Scroll => 1,
            Interface::Touchscreen => 1,
        }
    }

    /// Position of the interface in the table.
    pub fn index(self) -> (r: usize)
        ensures
            r as int == spec_index(self),
            r < INTERFACE_COUNT,
    {
        match self {
            Interface::Callback => 0,
            Interface::Connection => 1,
            Interface::Seat => 2,
            Interface::Device => 3,
            Interface::Pingpong => 4,
            Interface::Keyboard => 5,
            Interface::Pointer => 6,
            Interface::PointerAbsolute => 7,
            Interface::Button => 8,
            Interface::Scroll => 9,
            Interface::Touchscreen => 10,
        }
    }

    /// The interface at a position of the table.
    pub fn at(k: usize) -> (r: Interface)
        requires
            k < INTERFACE_COUNT,
        ensures
            r == spec_at(k as int),
            spec_index(r) == k,
    {
        if k == 0 {
            Interface::Callback
        } else if k == 1 {
            Interface::Connection
        } else if k == 2 {
            Interface::Seat
        } else if k == 3 {
            Interface::Device
        } else if k == 4 {
            Interface::Pingpong
        } else if k == 5 {
            Interface::Keyboard
        } else if k == 6 {
            Interface::Pointer
        } else if k == 7 {
            Interface::PointerAbsolute
        } else if k == 8 {
            Interface::Button
        } else if k == 9 {
            Interface::Scroll
        } else {
            Interface::Touchscreen
        }
    }

    /// Looks a wire name up in the table; names it does not hold give `None`.
    pub fn from_name(name: &str) -> (r: Option<Interface>)
        ensures
            r == interface_named(name@),
    {
        if same_text(name, "ei_callback") {
            Some(Interface::Callback)
        } else if same_text(name, "ei_connection") {
            Some(Interface::Connection)
        } else if same_text(name, "ei_seat") {
            Some(Interface::Seat)
        } else if same_text(name, "ei_device") {
            Some(Interface::Device)
        } else if same_text(name, "ei_pingpong") {
            Some(Interface::Pingpong)
        } else if same_text(name, "ei_keyboard") {
            Some(Interface::Keyboard)
        } else if same_text(name, "ei_pointer") {
            Some(Interface::Pointer)
        } else if same_text(name, "ei_pointer_absolute") {
            Some(Interface::PointerAbsolute)
        } else if same_text(name, "ei_button") {
            Some(Interface::Button)
        } else if same_text(name, "ei_scroll") {
            Some(Interface::Scroll)
        } else if same_text(name, "ei_touchscreen") {
            Some(Interface::Touchscreen)
        } else {
            None
        }
    }
}

/// Versions agreed for the interfaces of the table, built up during the
/// handshake; an interface without an entry was not negotiated.
pub struct InterfaceVersions {
    versions: Vec<Option<u32>>,
}

impl View for InterfaceVersions {
    type V = Map<Interface, u32>;

    closed spec fn view(&self) -> Map<Interface, u32> {
        Map::new(
            |i: Interface| self.versions@[spec_index(i)] is Some,
            |i: Interface| self.versions@[spec_index(i)]->Some_0,
        )
    }
}

impl InterfaceVersions {
    /// The table holds one slot per interface.
    pub closed spec fn wf(&self) -> bool {
        self.versions@.len() == INTERFACE_COUNT
    }

    /// A table with no interface negotiated.
    pub fn new() -> (r: InterfaceVersions)
        ensures
            r.wf(),
            r@ == Map::<Interface, u32>::empty(),
    {
        let mut versions: Vec<Option<u32>> = Vec::new();
        let mut k: usize = 0;
        while k < INTERFACE_COUNT
            invariant
                k <= INTERFACE_COUNT,
                versions@.len() == k,
                forall|j: int| 0 <= j < k ==> versions@[j] is None,
            decreases INTERFACE_COUNT - k,
        {
            versions.push(None);
            k += 1;
        }
        let r = InterfaceVersions { versions };
        assert(r@ =~= Map::<Interface, u32>::empty()) by {
            assert forall|i: Interface| !r@.contains_key(i) by {
                lemma_index_at(i, 0);
            }
        }
        r
    }

    /// The version agreed for `i`, if any.
    pub fn get(&self, i: Interface) -> (r: Option<u32>)
        requires
            self.wf(),
        ensures
            r == (if self@.contains_key(i) {
                Some(self@[i])
            } else {
                None
            }),
    {
        self.versions[i.index()]
    }

    /// Records `version` as the agreed version of `i`.
    pub fn set(&mut self, i: Interface, version: u32)
        requires
            old(self).wf(),
        ensures
            final(self).wf(),
            final(self)@ == old(self)@.insert(i, version),
    {
        let k = i.index();
        self.versions.set(k, Some(version));
        assert(self@ =~= old(self)@.insert(i, version)) by {
            assert forall|j: Interface| #[trigger] self.versions@[spec_index(j)] == (if j == i {
                Some(version)
            } else {
                old(self).versions@[spec_index(j)]
            }) by {
                lemma_index_at(j, 0);
                lemma_index_at(i, 0);
                if j != i {
                    assert(spec_index(j) != spec_index(i));
                }
            }
        }
    }

    /// A second table with the same entries.
    pub fn copy(&self) -> (r: InterfaceVersions)
        requires
            self.wf(),
        ensures
            r.wf(),
            r@ == self@,
    {
        let mut versions: Vec<Option<u32>> = Vec::new();
        let mut k: usize = 0;
        while k < self.versions.len()
            invariant
                k <= self.versions@.len(),
                versions@ == self.versions@.subrange(0, k as int),
            decreases self.versions@.len() - k,
        {
            versions.push(self.versions[k]);
            k += 1;
            assert(versions@ =~= self.versions@.subrange(0, k as int));
        }
        assert(versions@ =~= self.versions@);
        let r = InterfaceVersions { versions };
        assert(r@ =~= self@);
        r
    }

    /// Whether `i` was negotiated.
    pub fn contains(&self, i: Interface) -> (r: bool)
        requires
            self.wf(),
        ensures
            r == self@.contains_key(i),
    {
        self.versions[i.index()].is_some()
    }
}

} // verus!
