//! The process configuration: the URLs of the broker, the relational store and
//! the cache.
use vstd::prelude::*;

verus! {

/// The configuration the hub runs with.
pub struct DotEnv {
    pub rabbit_url: String,
    pub db_url: String,
    pub redis_url: String,
}

/// The variables the configuration is read from.
#[derive(Debug, Clone, Copy, PartialEq, Eq, Structural)]
pub enum ConfigVar {
    RabbitUrl,
    DbUrl,
    RedisUrl,
}

impl ConfigVar {
    /// The variable's name in the environment.
    pub fn name(&self) -> (r: &'static str)
        ensures
            r@ == match self {
                ConfigVar::RabbitUrl => "RABBIT_URL"@,
                ConfigVar::DbUrl => "DB_URL"@,
                ConfigVar::RedisUrl => "REDIS_URL"@,
            },
    {
        match self {
            ConfigVar::RabbitUrl => "RABBIT_URL",
            ConfigVar::DbUrl => "DB_URL",
            ConfigVar::RedisUrl => "REDIS_URL",
        }
    }
}

impl DotEnv {
    /// The configuration of the three variables' values; fails on the first
    /// of them (in the order broker, store, cache) that is not set.
    pub fn from_vars(rabbit_url: Option<String>, db_url: Option<String>, redis_url: Option<String>) -> (r: Result<DotEnv, ConfigVar>)
        ensures
            rabbit_url is None ==> r == Err::<DotEnv, ConfigVar>(ConfigVar::RabbitUrl),
            rabbit_url is Some && db_url is None ==> r == Err::<DotEnv, ConfigVar>(ConfigVar::DbUrl),
            rabbit_url is Some && db_url is Some && redis_url is None ==> r == Err::<DotEnv, ConfigVar>(ConfigVar::RedisUrl),
            rabbit_url is Some && db_url is Some && redis_url is Some ==> r is Ok && ({
                let e = r->Ok_0;
                &&& e.rabbit_url == rabbit_url->0
                &&& e.db_url == db_url->0
                &&& e.redis_url == redis_url->0
            }),
    {
        let rabbit_url = match rabbit_url {
            Some(u) => u,
            None => return Err(ConfigVar::RabbitUrl),
        };
        let db_url = match db_url {
            Some(u) => u,
            None => return Err(ConfigVar::DbUrl),
        };
        let redis_url = match redis_url {
            Some(u) => u,
            None => return Err(ConfigVar::RedisUrl),
        };
        Ok(DotEnv { rabbit_url, db_url, redis_url })
    }
}

} // verus!
