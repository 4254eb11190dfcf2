//! API keys: the number that says which operation a request asks for.

use vstd::prelude::*;

verus! {

pub const PRODUCE: i16 = 0;

pub const FETCH: i16 = 1;

pub const LIST_OFFSETS: i16 = 2;

pub const METADATA: i16 = 3;

pub const LEADER_AND_ISR: i16 = 4;

pub const STOP_REPLICA: i16 = 5;

pub const UPDATE_METADATA: i16 = 6;

pub const CONTROLLED_SHUTDOWN: i16 = 7;

pub const OFFSET_COMMIT: i16 = 8;

pub const OFFSET_FETCH: i16 = 9;

pub const FIND_COORDINATOR: i16 = 10;

pub const JOIN_GROUP: i16 = 11;

pub const HEARTBEAT: i16 = 12;

pub const LEAVE_GROUP: i16 = 13;

pub const SYNC_GROUP: i16 = 14;

pub const DESCRIBE_GROUPS: i16 = 15;

pub const LIST_GROUPS: i16 = 16;

pub const SASL_HANDSHAKE: i16 = 17;

pub const API_VERSIONS: i16 = 18;

} // verus!
