//! Small helpers: flag tests, the options of a mouse tracking area, and the plain data
//! types of Core Foundation, Core Graphics and Core Video that the platform layer passes
//! around.
use vstd::prelude::*;

verus! {

/// Whether all the bits of `flag` are set in `bitset`.
pub fn has_flag(bitset: usize, flag: usize) -> (r: bool)
    ensures
        r == (bitset & flag == flag),
{
    bitset & flag == flag
}

/// The options of an `NSTrackingArea`.
#[derive(Clone, Copy, Debug, PartialEq, Eq, Structural, Hash)]
pub struct NSTrackingAreaOptions {
    pub bits: usize,
}

pub const NS_TRACKING_MOUSE_ENTERED_AND_EXITED: usize = 0x1;
pub const NS_TRACKING_MOUSE_MOVED: usize = 0x2;
pub const NS_TRACKING_CURSOR_UPDATE: usize = 0x4;
pub const NS_TRACKING_ACTIVE_WHEN_FIRST_RESPONDER: usize = 0x10;
pub const NS_TRACKING_ACTIVE_IN_KEY_WINDOW: usize = 0x20;
pub const NS_TRACKING_ACTIVE_IN_ACTIVE_APP: usize = 0x40;
pub const NS_TRACKING_ACTIVE_ALWAYS: usize = 0x80;
pub const NS_TRACKING_ASSUME_INSIDE: usize = 0x100;
pub const NS_TRACKING_IN_VISIBLE_RECT: usize = 0x200;
pub const NS_TRACKING_ENABLED_DURING_MOUSE_DRAG: usize = 0x400;

/// The tracking-type options: entered and exited, moved, cursor update.
pub open spec fn tracking_type_mask() -> usize {
    NS_TRACKING_MOUSE_ENTERED_AND_EXITED | NS_TRACKING_MOUSE_MOVED | NS_TRACKING_CURSOR_UPDATE
}

/// The options that say when a tracking area is active.
pub open spec fn tracking_active_mask() -> usize {
    NS_TRACKING_ACTIVE_ALWAYS | NS_TRACKING_ACTIVE_IN_ACTIVE_APP | NS_TRACKING_ACTIVE_IN_KEY_WINDOW
        | NS_TRACKING_ACTIVE_WHEN_FIRST_RESPONDER
}

impl NSTrackingAreaOptions {
    /// Valid options hold at least one tracking type and exactly one of the options that
    /// say when the area is active.
    pub open spec fn valid(self) -> bool {
        let active = self.bits & tracking_active_mask();
        &&& self.bits & tracking_type_mask() != 0
        &&& (active == NS_TRACKING_ACTIVE_WHEN_FIRST_RESPONDER || active
            == NS_TRACKING_ACTIVE_IN_KEY_WINDOW || active == NS_TRACKING_ACTIVE_IN_ACTIVE_APP
            || active == NS_TRACKING_ACTIVE_ALWAYS)
    }

    /// Whether the options are valid: at least one tracking type and exactly one activity
    /// option.
    pub fn are_valid(&self) -> (r: bool)
        ensures
            r == self.valid(),
    {
        let bits = self.bits;
        let types = bits & (NS_TRACKING_MOUSE_ENTERED_AND_EXITED | NS_TRACKING_MOUSE_MOVED
            | NS_TRACKING_CURSOR_UPDATE);
        let active = bits & (NS_TRACKING_ACTIVE_ALWAYS | NS_TRACKING_ACTIVE_IN_ACTIVE_APP
            | NS_TRACKING_ACTIVE_IN_KEY_WINDOW | NS_TRACKING_ACTIVE_WHEN_FIRST_RESPONDER);
        // A power of two has a single bit set.
        let single = active != 0 && active & (active - 1) == 0;
        proof {
            assert(0x80usize | 0x40usize | 0x20usize | 0x10usize == 0xf0usize) by (bit_vector);
            assert(active == bits & 0xf0usize ==> (single <==> (active == 0x10usize || active
                == 0x20usize || active == 0x40usize || active == 0x80usize))) by (bit_vector)
                requires
                    single == (active != 0 && active & ((active - 1) as usize) == 0),
            ;
        }
        types > 0 && single
    }
}

/// An object that may be absent (a null reference), given by its address.
pub trait IntoOption: Sized {
    /// The object, or none when it is absent.
    fn into_option(self) -> Option<Self>;
}

/// The address of an Objective-C object; zero is `nil`.
#[derive(Clone, Copy, Debug, PartialEq, Eq, Structural, Hash)]
pub struct ObjectRef(pub usize);

impl IntoOption for ObjectRef {
    fn into_option(self) -> (r: Option<ObjectRef>)
        ensures
            r == (if self.0 != 0 {
                Some(self)
            } else {
                None
            }),
    {
        if self.0 != 0 {
            Some(self)
        } else {
            None
        }
    }
}

/// A range of a Core Foundation collection.
#[derive(Clone, Copy, Debug, PartialEq, Eq, Structural)]
pub struct CFRange {
    pub location: isize,
    pub length: isize,
}

impl CFRange {
    pub fn init(location: isize, length: isize) -> (r: CFRange)
        ensures
            r.location == location,
            r.length == length,
    {
        CFRange { location, length }
    }
}

/// The sixteen bytes of a UUID.
#[derive(Clone, Copy, Debug, Default, PartialEq, Eq, Structural)]
pub struct CFUUIDBytes {
    pub byte0: u8,
    pub byte1: u8,
    pub byte2: u8,
    pub byte3: u8,
    pub byte4: u8,
    pub byte5: u8,
    pub byte6: u8,
    pub byte7: u8,
    pub byte8: u8,
    pub byte9: u8,
    pub byte10: u8,
    pub byte11: u8,
    pub byte12: u8,
    pub byte13: u8,
    pub byte14: u8,
    pub byte15: u8,
}

impl CFUUIDBytes {
    /// The bytes in order.
    pub fn to_array(&self) -> (r: [u8; 16])
        ensures
            r@ == seq![
                self.byte0,
                self.byte1,
                self.byte2,
                self.byte3,
                self.byte4,
                self.byte5,
                self.byte6,
                self.byte7,
                self.byte8,
                self.byte9,
                self.byte10,
                self.byte11,
                self.byte12,
                self.byte13,
                self.byte14,
                self.byte15,
            ],
    {
        let r = [
            self.byte0,
            self.byte1,
            self.byte2,
            self.byte3,
            self.byte4,
            self.byte5,
            self.byte6,
            self.byte7,
            self.byte8,
            self.byte9,
            self.byte10,
            self.byte11,
            self.byte12,
            self.byte13,
            self.byte14,
            self.byte15,
        ];
        assert(r@ =~= seq![
            self.byte0,
            self.byte1,
            self.byte2,
            self.byte3,
            self.byte4,
            self.byte5,
            self.byte6,
            self.byte7,
            self.byte8,
            self.byte9,
            self.byte10,
            self.byte11,
            self.byte12,
            self.byte13,
            self.byte14,
            self.byte15,
        ]);
        r
    }
}

/// A display, by its identifier.
#[derive(Clone, Copy, Debug, PartialEq, Eq, Structural)]
pub struct CGDisplay {
    pub id: u32,
}

impl CGDisplay {
    pub fn new(id: u32) -> (r: CGDisplay)
        ensures
            r.id == id,
    {
        CGDisplay { id }
    }
}

/// The content of a type that stands for a foreign type and is only used by reference.
pub struct Opaque {
    private: (),
}

/// A range of characters (in UTF-16 units) of a text.
#[derive(Clone, Copy, Debug, PartialEq, Eq, Structural)]
pub struct NSRange {
    pub location: usize,
    pub length: usize,
}

/// `NSNotFound`: the greatest `NSInteger`.
pub fn ns_not_found() -> (r: usize)
    ensures
        r == isize::MAX,
{
    isize::MAX as usize
}

/// The empty range at `NSNotFound`, which means "no range".
pub fn empty_range() -> (r: NSRange)
    ensures
        r.location == isize::MAX,
        r.length == 0,
{
    NSRange { location: ns_not_found(), length: 0 }
}

} // verus!
