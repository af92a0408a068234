use vstd::prelude::*;
use vstd::string::StringExecFns;
use crate::osc::{Arg, Message, Packet};

verus! {

/// The route prefix that this client asks the device to use.
pub const PREFIX: &'static str = "/64";

/// A command to the grid.
#[allow(clippy::enum_variant_names)]
pub enum MonomeAction<'a> {
    /// Set one LED: x, y, on.
    LedSet(u8, u8, bool),
    /// Set all LEDs: on.
    LedAll(bool),
    /// Set the brightness level.
    LedIntensity(u8),
    /// Set an 8x8 region: x offset, y offset, one bitmask per row.
    LedMap(u8, u8, &'a [u8; 8]),
    /// Set one row: x offset, y, bitmask.
    LedRow(u8, u8, u8),
    /// Set one column: x, y offset, bitmask.
    LedCol(u8, u8, u8),
}

/// A notification from the grid: a key at x, y was pressed (`true`) or
/// released (`false`).
#[derive(Debug, Copy, Clone, PartialEq, Eq, Structural)]
pub enum MonomeEvent {
    Key(u8, u8, bool),
}

/// The wire value of a flag.
pub open spec fn flag_value(b: bool) -> i32 {
    if b { 1 } else { 0 }
}

/// The wire value of a byte-sized field.
pub open spec fn int_arg(v: u8) -> Arg {
    Arg::Int(v as i32)
}

impl<'a> MonomeAction<'a> {
    /// The route of the action, below the client's prefix.
    pub open spec fn route(self) -> Seq<char> {
        match self {
            MonomeAction::LedSet(..) => "/grid/led/set"@,
            MonomeAction::LedAll(..) => "/grid/led/all"@,
            MonomeAction::LedIntensity(..) => "/grid/led/intensity"@,
            MonomeAction::LedMap(..) => "/grid/led/map"@,
            MonomeAction::LedCol(..) => "/grid/led/col"@,
            MonomeAction::LedRow(..) => "/grid/led/row"@,
        }
    }

    /// The positional arguments of the action, in wire order.
    pub open spec fn arguments(self) -> Seq<Arg> {
        match self {
            MonomeAction::LedSet(x, y, s) => seq![int_arg(x), int_arg(y), Arg::Int(flag_value(s))],
            MonomeAction::LedAll(s) => seq![Arg::Int(flag_value(s))],
            MonomeAction::LedIntensity(i) => seq![int_arg(i)],
            MonomeAction::LedMap(x_off, y_off, masks) => seq![int_arg(x_off), int_arg(y_off)]
                + masks@.map_values(|m: u8| int_arg(m)),
            MonomeAction::LedCol(x, y_off, mask) => seq![int_arg(x), int_arg(y_off), int_arg(mask)],
            MonomeAction::LedRow(x_off, y, mask) => seq![int_arg(x_off), int_arg(y), int_arg(mask)],
        }
    }

    /// The route of the action, below the client's prefix.
    pub fn to_addr(&self) -> (r: String)
        ensures
            r@ == self.route(),
    {
        match *self {
            MonomeAction::LedSet(..) => String::from_str("/grid/led/set"),
            MonomeAction::LedAll(..) => String::from_str("/grid/led/all"),
            MonomeAction::LedIntensity(..) => String::from_str("/grid/led/intensity"),
            MonomeAction::LedMap(..) => String::from_str("/grid/led/map"),
            MonomeAction::LedCol(..) => String::from_str("/grid/led/col"),
            MonomeAction::LedRow(..) => String::from_str("/grid/led/row"),
        }
    }

    /// The positional arguments of the action. Flags are sent as 0 or 1;
    /// a region is sent as its two offsets followed by its eight row masks.
    pub fn to_args(&self) -> (r: Vec<Arg>)
        ensures
            r@ == self.arguments(),
            *self matches MonomeAction::LedSet(_, _, s) ==> r@[2] == Arg::Int(flag_value(s)),
            *self matches MonomeAction::LedAll(s) ==> r@[0] == Arg::Int(flag_value(s)),
            *self matches MonomeAction::LedMap(x_off, y_off, masks) ==> {
                &&& r@.len() == 10
                &&& r@[0] == int_arg(x_off)
                &&& r@[1] == int_arg(y_off)
                &&& forall|i: int| 0 <= i < 8 ==> #[trigger] r@[i + 2] == int_arg(masks@[i])
            },
    {
        match *self {
            MonomeAction::LedSet(x, y, s) => {
                let v: i32 = if s { 1 } else { 0 };
                vec![Arg::Int(x as i32), Arg::Int(y as i32), Arg::Int(v)]
            },
            MonomeAction::LedAll(s) => {
                let v: i32 = if s { 1 } else { 0 };
                vec![Arg::Int(v)]
            },
            MonomeAction::LedIntensity(i) => vec![Arg::Int(i as i32)],
            MonomeAction::LedMap(x_off, y_off, masks) => {
                let mut args: Vec<Arg> = Vec::with_capacity(10);
                args.push(Arg::Int(x_off as i32));
                args.push(Arg::Int(y_off as i32));
                let mut i: usize = 0;
                while i < 8
                    invariant
                        i <= 8,
                        masks@.len() == 8,
                        args@ == seq![int_arg(x_off), int_arg(y_off)]
                            + masks@.subrange(0, i as int).map_values(|m: u8| int_arg(m)),
                    decreases 8 - i,
                {
                    args.push(Arg::Int(masks[i] as i32));
                    proof {
                        assert(masks@.subrange(0, i + 1) == masks@.subrange(0, i as int).push(
                            masks@[i as int],
                        ));
                    }
                    i = i + 1;
                }
                proof {
                    assert(masks@.subrange(0, 8) == masks@);
                }
                args
            },
            MonomeAction::LedCol(x, y_off, mask) => vec![
                Arg::Int(x as i32),
                Arg::Int(y_off as i32),
                Arg::Int(mask as i32),
            ],
            MonomeAction::LedRow(x_off, y, mask) => vec![
                Arg::Int(x_off as i32),
                Arg::Int(y as i32),
                Arg::Int(mask as i32),
            ],
        }
    }

    /// The message for this action under the given route prefix.
    pub fn to_message(&self, prefix: &str) -> (r: Message)
        ensures
            r.addr@ == prefix@ + self.route(),
            r.args@ == self.arguments(),
    {
        let mut addr = String::from_str(prefix);
        let route = self.to_addr();
        addr.append(route.as_str());
        Message { addr, args: self.to_args() }
    }

    /// The packet for this action under this client's prefix.
    pub fn to_packet(&self) -> (r: Packet)
        ensures
            r matches Packet::Message(m) && m.addr@ == PREFIX@ + self.route()
                && m.args@ == self.arguments(),
    {
        Packet::Message(self.to_message(PREFIX))
    }
}

} // verus!
