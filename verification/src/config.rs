//! The proxy's configuration, as its YAML file describes it.
use vstd::prelude::*;
use crate::text::{chars_eq, chars_of};

verus! {

/// How the proxy runs one model.
pub struct ModelConfig {
    pub cmd: String,
    pub proxy: String,
    pub ttl: u64,
}

/// The proxy's configuration: its models by name, and its profiles (lists
/// of model names) by name.
#[allow(non_snake_case)]
pub struct Config {
    pub healthCheckTimeout: u64,
    pub models: Vec<(String, ModelConfig)>,
    pub profiles: Vec<(String, Vec<String>)>,
}

/// No two entries have the same name.
pub open spec fn distinct_names<T>(entries: Seq<(String, T)>) -> bool {
    forall|i: int, j: int|
        0 <= i < entries.len() && 0 <= j < entries.len() && i != j ==> entries[i].0@ != entries[j].0@
}

impl Config {
    /// Models and profiles are maps: each name occurs once.
    pub open spec fn wf(&self) -> bool {
        distinct_names(self.models@) && distinct_names(self.profiles@)
    }

    /// The names of the configured models, in the configuration's order.
    pub open spec fn model_names(&self) -> Seq<Seq<char>> {
        self.models@.map_values(|e: (String, ModelConfig)| e.0@)
    }
}

/// The names of the models that the configuration describes, each once.
pub fn model_list(config: &Config) -> (r: Vec<String>)
    ensures
        r@.map_values(|m: String| m@) == config.model_names(),
        config.wf() ==> forall|i: int, j: int|
            0 <= i < r@.len() && 0 <= j < r@.len() && i != j ==> r@[i]@ != r@[j]@,
{
    let mut r: Vec<String> = Vec::new();
    let mut i: usize = 0;
    while i < config.models.len()
        invariant
            i <= config.models@.len(),
            r@.len() == i,
            forall|j: int| 0 <= j < i ==> #[trigger] r@[j]@ == config.models@[j].0@,
        decreases config.models.len() - i,
    {
        r.push(config.models[i].0.clone());
        i = i + 1;
    }
    assert(r@.map_values(|m: String| m@) =~= config.model_names());
    r
}

/// The name of the proxy's process.
pub open spec fn proxy_process() -> Seq<char> {
    "llama-swap"@
}

/// The port of the first listening socket, among `listeners` (each the name
/// of the process that listens, and the port), that a process named `name`
/// holds.
pub open spec fn first_port(listeners: Seq<(String, u16)>, name: Seq<char>) -> Option<u16>
    decreases listeners.len(),
{
    if listeners.len() == 0 {
        None
    } else if listeners[0].0@ == name {
        Some(listeners[0].1)
    } else {
        first_port(listeners.drop_first(), name)
    }
}

/// The port that the proxy listens on, given the machine's listening
/// sockets: the first one that a process named "llama-swap" holds.
pub fn proxy_port(listeners: &Vec<(String, u16)>) -> (r: Option<u16>)
    ensures
        r == first_port(listeners@, proxy_process()),
{
    let name = chars_of("llama-swap");
    let mut i: usize = 0;
    assert(listeners@.skip(0) =~= listeners@);
    while i < listeners.len()
        invariant
            i <= listeners@.len(),
            name@ == proxy_process(),
            first_port(listeners@, proxy_process()) == first_port(listeners@.skip(i as int), proxy_process()),
        decreases listeners.len() - i,
    {
        assert(listeners@.skip(i as int)[0] == listeners@[i as int]);
        assert(listeners@.skip(i as int).drop_first() =~= listeners@.skip(i + 1));
        if chars_eq(&chars_of(listeners[i].0.as_str()), &name) {
            return Some(listeners[i].1);
        }
        i = i + 1;
    }
    None
}

} // verus!
