use vstd::prelude::*;
use vstd::string::StringExecFns;

verus! {

/// Configuration of the payment service.
#[derive(Clone, Debug)]
pub struct Settings {
    pub server_url: String,
    pub server_port: u16,
    pub redis_url: String,
    pub payment_processor_url: String,
    pub payment_topic: String,
    pub db_host: String,
    pub db_port: u16,
    pub db_name: String,
    pub db_user: String,
    pub db_password: String,
}

/// Name of the dead-letter lane of a queue: `<queue>_dlq`.
pub open spec fn dlq_name_of(queue: Seq<char>) -> Seq<char> {
    queue + "_dlq"@
}

impl Settings {
    /// Settings made of the given values.
    pub fn new(
        server_url: String,
        server_port: u16,
        redis_url: String,
        payment_processor_url: String,
        payment_topic: String,
        db_host: String,
        db_port: u16,
        db_name: String,
        db_user: String,
        db_password: String,
    ) -> (r: Settings)
        ensures
            r.server_url == server_url,
            r.server_port == server_port,
            r.redis_url == redis_url,
            r.payment_processor_url == payment_processor_url,
            r.payment_topic == payment_topic,
            r.db_host == db_host,
            r.db_port == db_port,
            r.db_name == db_name,
            r.db_user == db_user,
            r.db_password == db_password,
    {
        Settings {
            server_url,
            server_port,
            redis_url,
            payment_processor_url,
            payment_topic,
            db_host,
            db_port,
            db_name,
            db_user,
            db_password,
        }
    }

    /// The dead-letter lane that belongs to the configured queue; it is always
    /// derived from the queue name, never configured on its own.
    pub fn dlq_name(&self) -> (r: String)
        ensures
            r@ == dlq_name_of(self.payment_topic@),
    {
        let mut r = self.payment_topic.clone();
        r.append("_dlq");
        r
    }
}

} // verus!
