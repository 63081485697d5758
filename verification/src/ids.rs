//! The ids that the SDK gives its own messages.

use rand::{Rng, SeedableRng};
use vstd::prelude::*;
use crate::error::{ErrorModel, PrivchatSDKError};
use crate::text;

verus! {

/// How many machines a data center has, and how many data centers there are.
pub const NODES: u16 = 32;

/// The generator of `snowflake_me`.
#[verifier::external_type_specification]
#[verifier::external_body]
pub struct ExSnowflake(snowflake_me::Snowflake);

/// Two numbers below `bound` that `Rng::gen_range` draws from a `StdRng`, which
/// `SeedableRng::from_entropy` seeds. Which numbers come is left to chance. The seeding panics where
/// the system has no entropy to give, whatever the bound.
#[verifier::external_body]
fn random_pair(bound: u16) -> (r: (u16, u16))
    requires
        bound > 0,
    ensures
        r.0 < bound,
        r.1 < bound,
{
    let mut rng = rand::rngs::StdRng::from_entropy();
    (rng.gen_range(0..bound), rng.gen_range(0..bound))
}

/// `Builder::finalize` of `snowflake_me`, with the defaults for all but the machine and the data
/// center. The default widths give each of the two five bits, and a number that does not fit is
/// refused; nothing else is. The text of the refusal is that of its `Debug`, of which nothing is
/// said.
#[verifier::external_body]
fn build_generator(machine_id: u16, data_center_id: u16) -> (r: Result<
    snowflake_me::Snowflake,
    String,
>)
    ensures
        match r {
            Ok(_) => machine_id < 32 && data_center_id < 32,
            Err(_) => machine_id >= 32 || data_center_id >= 32,
        },
{
    snowflake_me::Snowflake::builder()
        .machine_id(&|| Ok(machine_id))
        .data_center_id(&|| Ok(data_center_id))
        .finalize()
        .map_err(|e| format!("{:?}", e))
}

/// `Snowflake::next_id`. The id depends on the clock and on the ids before it. The parts of an id are
/// 63 bits wide together, so that every id fits an `i64`; that no id comes twice is not said here.
/// The text of a failure is that of its `Debug`, of which nothing is said.
#[verifier::external_body]
fn draw_id(source: &snowflake_me::Snowflake) -> (r: Result<u64, String>)
    ensures
        r matches Ok(id) ==> id <= i64::MAX,
{
    source.next_id().map(|id| id.as_u64()).map_err(|e| format!("{:?}", e))
}

/// The error of an operation that failed for a reason that comes from outside.
pub open spec fn failed_for(head: Seq<char>, why: Seq<char>) -> ErrorModel {
    ErrorModel::Other(head + why)
}

/// Whether an error says what failed, followed by a reason.
pub open spec fn says(e: ErrorModel, head: Seq<char>) -> bool {
    e matches ErrorModel::Other(m) && text::begins_with(m, head)
}

/// The error of an operation that failed for a reason that comes from outside.
pub fn failure(head: &str, why: &str) -> (r: PrivchatSDKError)
    ensures
        r@ == failed_for(head@, why@),
        says(r@, head@),
{
    let mut s = head.to_owned();
    s.append(why);
    proof {
        assert((head@ + why@).take(head@.len() as int) =~= head@);
    }
    PrivchatSDKError::Other(s)
}

/// What gives the SDK its ids.
pub struct IdGenerator {
    source: snowflake_me::Snowflake,
}

impl IdGenerator {
    /// A generator for a machine of a data center; both are below [`NODES`].
    pub fn with_node(machine_id: u16, data_center_id: u16) -> (r: Result<Self, PrivchatSDKError>)
        ensures
            r is Ok <==> machine_id < NODES && data_center_id < NODES,
            r matches Err(e) ==> says(e@, "初始化 Snowflake 失败: "@),
    {
        match build_generator(machine_id, data_center_id) {
            Ok(source) => Ok(IdGenerator { source }),
            Err(why) => Err(failure("初始化 Snowflake 失败: ", why.as_str())),
        }
    }

    /// A generator for a machine and a data center that chance picks.
    pub fn new() -> (r: Result<Self, PrivchatSDKError>)
        ensures
            r is Ok,
    {
        let node = random_pair(NODES);
        Self::with_node(node.0, node.1)
    }

    /// The next id, or why there is none.
    pub fn next_id(&self) -> (r: Result<u64, String>)
        ensures
            r matches Ok(id) ==> id <= i64::MAX,
    {
        draw_id(&self.source)
    }
}

} // verus!
