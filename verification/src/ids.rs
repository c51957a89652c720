//! Ids of channels, messages and attachments.
use vstd::prelude::*;

verus! {

#[verifier::external_type_specification]
#[verifier::external_body]
pub struct ExSnowflakeIdGenerator(snowflake::SnowflakeIdGenerator);

/// The machine and node numbers that a generator was made with.
pub uninterp spec fn place_of(generator: snowflake::SnowflakeIdGenerator) -> (int, int);

/// Where a generator counts its time from, in milliseconds after the Unix
/// epoch.
pub uninterp spec fn epoch_of(generator: snowflake::SnowflakeIdGenerator) -> int;

/// Whether `id` bears the machine number `place.0` in its bits 17 to 21 and
/// the node number `place.1` in its bits 12 to 16.
pub open spec fn bears(id: i64, place: (int, int)) -> bool {
    (id as int / 4096) % 1024 == place.0 * 32 + place.1
}

/// `snowflake::SnowflakeIdGenerator::with_epoch`, with the epoch given in
/// milliseconds after the Unix epoch. The generator keeps the two numbers and
/// the epoch it is made with. The call does not return when the system clock stands before
/// the epoch, which a 32-bit number puts in the year 1970.
#[verifier::external_body]
fn generator_with_epoch(machine_id: i32, node_id: i32, epoch_millis: u32) -> (res:
    snowflake::SnowflakeIdGenerator)
    requires
        0 <= machine_id < 32,
        0 <= node_id < 32,
    ensures
        place_of(res) == (machine_id as int, node_id as int),
        epoch_of(res) == epoch_millis,
{
    snowflake::SnowflakeIdGenerator::with_epoch(
        machine_id,
        node_id,
        std::time::UNIX_EPOCH + std::time::Duration::from_millis(epoch_millis.into()),
    )
}

/// `snowflake::SnowflakeIdGenerator::real_time_generate`. The id puts the
/// clock's milliseconds above bit 22, then the machine and node numbers, then a
/// 12-bit counter; the generator keeps its numbers and its epoch. Time and counter are
/// another pair at every call, and nothing is claimed of them. The call does not
/// return when the system clock stands before the epoch.
#[verifier::external_body]
fn real_time_generate(generator: &mut snowflake::SnowflakeIdGenerator) -> (id: i64)
    requires
        0 <= place_of(*old(generator)).0 < 32,
        0 <= place_of(*old(generator)).1 < 32,
    ensures
        place_of(*final(generator)) == place_of(*old(generator)),
        epoch_of(*final(generator)) == epoch_of(*old(generator)),
        bears(id, place_of(*old(generator))),
{
    generator.real_time_generate()
}

/// Where this server's ids count their time from, in milliseconds after the
/// Unix epoch.
pub const EPOCH_MILLIS: u32 = 1672531200;

/// The machine number of this server.
pub const MACHINE_ID: i32 = 1;

/// The node number of this server.
pub const NODE_ID: i32 = 1;

/// Whether `id` can have come from this server's generator.
pub open spec fn is_server_id(id: i64) -> bool {
    bears(id, (MACHINE_ID as int, NODE_ID as int))
}

/// The source of ids.
pub struct IdGenerator {
    inner: snowflake::SnowflakeIdGenerator,
}

impl IdGenerator {
    /// The machine and node numbers in the ids that come out.
    pub closed spec fn place(self) -> (int, int) {
        place_of(self.inner)
    }

    /// Where the time in the ids that come out is counted from, in milliseconds
    /// after the Unix epoch.
    pub closed spec fn epoch(self) -> int {
        epoch_of(self.inner)
    }

    #[verifier::type_invariant]
    spec fn at_its_place(self) -> bool {
        &&& self.place() == (MACHINE_ID as int, NODE_ID as int)
        &&& self.epoch() == EPOCH_MILLIS
    }

    /// The generator of this server.
    pub fn new() -> (res: Self)
        ensures
            res.place() == (MACHINE_ID as int, NODE_ID as int),
            res.epoch() == EPOCH_MILLIS,
    {
        IdGenerator { inner: generator_with_epoch(MACHINE_ID, NODE_ID, EPOCH_MILLIS) }
    }

    /// The next id.
    pub fn generate(&mut self) -> (id: i64)
        ensures
            is_server_id(id),
            final(self).place() == old(self).place(),
            final(self).epoch() == old(self).epoch(),
    {
        proof {
            use_type_invariant(&*self);
        }
        let mut inner = self.inner;
        let id = real_time_generate(&mut inner);
        self.inner = inner;
        id
    }
}

/// No generated id is 0, the id that stands for a deleted user.
pub proof fn law_ids_are_not_zero(id: i64)
    requires
        is_server_id(id),
    ensures
        id != 0,
{
}

/// The ids of this server bear the machine number 1 and the node number 1, each
/// in five bits of its own above the twelve bits of the counter.
pub proof fn law_ids_bear_their_place(id: i64)
    requires
        is_server_id(id),
    ensures
        (id as int / 4096) % 32 == 1,
        (id as int / 131072) % 32 == 1,
{
    let n = id as int / 4096;
    assert(id as int / 131072 == n / 32);
}

/// The ids count their time from the 1672531200th millisecond after the Unix
/// epoch.
pub proof fn law_where_ids_count_from()
    ensures
        EPOCH_MILLIS == 1672531200,
{
}

} // verus!
