//! Command-line arguments shared by endpoints and workers, and how they turn
//! into Redis access descriptions.
use vstd::prelude::*;
use vstd::string::*;
use crate::shared::redis::{
    RedisAccess, RedisAuth, RedisDesignation, designation_name, designation_of_code,
};
use crate::text::{
    decimal, decimal_text, is_ascii_digit, law_decimal_reads_back, numeral_value, to_uppercase,
    uppercase_of,
};

verus! {

/// Arguments of an HTTP endpoint.
#[derive(Clone, Debug)]
pub struct EndpointArgs {
    pub port: u16,
}

/// Arguments of a background worker.
#[derive(Clone, Debug)]
pub struct WorkerArgs {
    pub workers: u16,
}

/// Access to the Postgres database.
#[derive(Clone, Debug)]
pub struct PgAccesArgs {
    pub host: String,
    pub port: u16,
    pub dbname: String,
    pub user: String,
    pub password: String,
}

/// Access to the Redis instance of the designation whose number is `DESIGNATION`.
#[derive(Clone, Debug)]
pub struct RedisAccessArgs<const DESIGNATION: u32> {
    /// REDIS_<DESIGNATION>_HOST
    pub host: String,
    /// REDIS_<DESIGNATION>_PORT
    pub port: u16,
    /// REDIS_<DESIGNATION>_BASE_KEY
    pub base_key: String,
    pub auth: Option<RedisAuthArgs<DESIGNATION>>,
}

/// Credentials for the Redis instance of the designation whose number is `DESIGNATION`.
#[derive(Clone, Debug)]
pub struct RedisAuthArgs<const DESIGNATION: u32> {
    /// REDIS_<DESIGNATION>_USER
    pub user: String,
    /// REDIS_<DESIGNATION>_PASSWORD
    pub password: String,
}

/// The name of the environment variable that holds parameter `param` of the
/// Redis instance with designation `d`: `REDIS_<DESIGNATION>_<PARAM>`, both upper-cased.
pub open spec fn redis_env_name(d: RedisDesignation, param: Seq<char>) -> Seq<char> {
    "REDIS_"@ + uppercase_of(designation_name(d)) + "_"@ + uppercase_of(param)
}

/// The environment variable for parameter `param` of the Redis instance whose
/// designation number is `value`. A number that stands for no designation is refused.
pub fn rd_as_env(value: u32, param: &str) -> (r: String)
    requires
        designation_of_code(value) is Some,
    ensures
        r@ == redis_env_name(designation_of_code(value).unwrap(), param@),
{
    let designation = match RedisDesignation::from_u32(value) {
        Some(d) => d,
        None => {
            proof {
                assert(false);
            }
            RedisDesignation::RenderWorkerCache
        },
    };
    let name = designation.to_string();
    let mut out = String::from_str("REDIS_");
    let upper_name = to_uppercase(name.as_str());
    out.append(upper_name.as_str());
    out.append("_");
    let upper_param = to_uppercase(param);
    out.append(upper_param.as_str());
    out
}

/// The URL of a Redis server at `host` and `port`: `redis://<host>:<port>`.
pub open spec fn redis_url(host: Seq<char>, port: u16) -> Seq<char> {
    "redis://"@ + host + ":"@ + decimal(port as nat)
}

impl RedisAuth {
    /// The credentials given on the command line.
    pub fn from<const DESIGNATION: u32>(args: &RedisAuthArgs<DESIGNATION>) -> (r: RedisAuth)
        ensures
            r.user@ == args.user@,
            r.password@ == args.password@,
    {
        RedisAuth { user: args.user.clone(), password: args.password.clone() }
    }
}

impl RedisAccess {
    /// The access description given on the command line: the server's URL is
    /// built from host and port, base key and credentials are taken over.
    pub fn from<const DESIGNATION: u32>(args: &RedisAccessArgs<DESIGNATION>) -> (r: RedisAccess)
        ensures
            r.url@ == redis_url(args.host@, args.port),
            r.base_key@ == args.base_key@,
            r.auth is Some <==> args.auth is Some,
            r.auth is Some ==> r.auth->0.user@ == args.auth->0.user@
                && r.auth->0.password@ == args.auth->0.password@,
    {
        let mut url = String::from_str("redis://");
        url.append(args.host.as_str());
        url.append(":");
        let port = decimal_text(args.port as u64);
        url.append(port.as_str());
        let auth = match &args.auth {
            Some(a) => Some(RedisAuth::from(a)),
            None => None,
        };
        RedisAccess { url, base_key: args.base_key.clone(), auth }
    }
}

/// A Redis URL names the host unchanged after `redis://`, and after the next
/// `:` the port in decimal digits, which read back as the port.
pub proof fn law_redis_url_port(host: Seq<char>, port: u16)
    ensures
        ({
            let u = redis_url(host, port);
            let tail = u.subrange(9int + host.len(), u.len() as int);
            &&& u.subrange(0, 8) == "redis://"@
            &&& u.subrange(8, 8int + host.len()) == host
            &&& u[8int + host.len()] == ':'
            &&& tail.len() >= 1
            &&& forall|i: int| 0 <= i < tail.len() ==> #[trigger] is_ascii_digit(tail[i])
            &&& numeral_value(tail) == port
        }),
{
    reveal_strlit("redis://");
    reveal_strlit(":");
    law_decimal_reads_back(port as nat);
    let u = redis_url(host, port);
    assert(u.subrange(0, 8) =~= "redis://"@);
    assert(u.subrange(8, 8int + host.len()) =~= host);
    assert(u.subrange(9int + host.len(), u.len() as int) =~= decimal(port as nat));
}

} // verus!
