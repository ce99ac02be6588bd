//! The instances that the process manager runs.

use crate::text::{glue, glue3, is_among, same, texts};
use vstd::prelude::*;

verus! {

/// The instances to run.
#[derive(Debug, Clone)]
pub struct InstancesConfig {
    pub instances: Vec<Instance>,
}

/// A server to run.
#[derive(Debug, Clone)]
pub struct Instance {
    pub name: String,
    pub config: String,
    pub port: Option<u16>,
    pub enabled: bool,
    pub auto_restart: bool,
}

impl Default for Instance {
    fn default() -> (res: Instance)
        ensures
            res.name@ == Seq::<char>::empty(),
            res.config@ == Seq::<char>::empty(),
            res.port is None,
            res.enabled,
            !res.auto_restart,
    {
        Instance { name: String::new(), config: String::new(), port: None, enabled: true, auto_restart: false }
    }
}

/// The names of some instances.
pub open spec fn names(instances: Seq<Instance>) -> Seq<Seq<char>> {
    instances.map_values(|i: Instance| i.name@)
}

/// Why no instances were loaded.
pub enum LoadFailure {
    /// The file could not be read.
    NotRead(String),
    /// The file could not be parsed.
    NotParsed(String),
}

/// The first instance with a name that an earlier one has.
pub open spec fn first_repeated(names: Seq<Seq<char>>) -> Option<Seq<char>>
    decreases names.len(),
{
    if names.len() == 0 {
        None
    } else {
        match first_repeated(names.drop_last()) {
            Some(n) => Some(n),
            None => if names.drop_last().contains(names.last()) {
                Some(names.last())
            } else {
                None
            },
        }
    }
}

proof fn repetition_stays(all: Seq<Seq<char>>, n: int)
    requires
        0 <= n <= all.len(),
        first_repeated(all.take(n)) is Some,
    ensures
        first_repeated(all) == first_repeated(all.take(n)),
    decreases all.len(),
{
    if n == all.len() {
        assert(all.take(n) =~= all);
    } else {
        assert(all.drop_last().take(n) =~= all.take(n));
        repetition_stays(all.drop_last(), n);
    }
}

/// The complaint about a name that two instances have.
pub open spec fn repeated_message(name: Seq<char>) -> Seq<char> {
    "Duplicate instance name found: '"@ + name + "'. All instance names must be unique."@
}

/// What a file with instances, once parsed, is loaded as.
pub open spec fn loaded(parsed: Result<InstancesConfig, LoadFailure>) -> Result<InstancesConfig, Seq<char>> {
    match parsed {
        Err(LoadFailure::NotRead(e)) => Err("Failed to read instances config: "@ + e@),
        Err(LoadFailure::NotParsed(e)) => Err("Failed to parse instances config: "@ + e@),
        Ok(config) => match first_repeated(names(config.instances@)) {
            Some(n) => Err(repeated_message(n)),
            None => Ok(config),
        },
    }
}

/// A result with its message taken by its characters.
pub open spec fn config_result(r: Result<InstancesConfig, String>) -> Result<InstancesConfig, Seq<char>> {
    match r {
        Ok(c) => Ok(c),
        Err(e) => Err(e@),
    }
}

impl InstancesConfig {
    /// Load instances from a file that was read and parsed. No two of them have
    /// the same name.
    pub fn load(parsed: Result<InstancesConfig, LoadFailure>) -> (res: Result<InstancesConfig, String>)
        ensures
            config_result(res) == loaded(parsed),
    {
        let config = match parsed {
            Err(LoadFailure::NotRead(e)) => return Err(
                glue("Failed to read instances config: ", e.as_str()),
            ),
            Err(LoadFailure::NotParsed(e)) => return Err(
                glue("Failed to parse instances config: ", e.as_str()),
            ),
            Ok(c) => c,
        };
        let ghost all = names(config.instances@);
        let mut seen: Vec<String> = Vec::new();
        let mut i: usize = 0;
        assert(texts(seen@) =~= all.take(0));
        while i < config.instances.len()
            invariant
                i <= config.instances@.len(),
                parsed == Ok::<InstancesConfig, LoadFailure>(config),
                all == names(config.instances@),
                texts(seen@) == all.take(i as int),
                first_repeated(all.take(i as int)) is None,
            decreases config.instances@.len() - i,
        {
            let name = config.instances[i].name.clone();
            proof {
                assert(all[i as int] == name@);
                assert(all.take(i + 1).drop_last() =~= all.take(i as int));
            }
            if is_among(&seen, name.as_str()) {
                proof {
                    repetition_stays(all, i + 1);
                }
                return Err(
                    glue3(
                        "Duplicate instance name found: '",
                        name.as_str(),
                        "'. All instance names must be unique.",
                    ),
                );
            }
            let ghost before = texts(seen@);
            seen.push(name);
            assert(texts(seen@) =~= before.push(name@));
            assert(texts(seen@) =~= all.take(i + 1));
            i += 1;
        }
        assert(all.take(all.len() as int) =~= all);
        Ok(config)
    }

    /// The first instance that goes by a name.
    pub fn find_instance(&self, name: &str) -> (res: Option<&Instance>)
        ensures
            match res {
                Some(found) => exists|i: int|
                    {
                        &&& 0 <= i < self.instances@.len()
                        &&& *found == #[trigger] self.instances@[i]
                        &&& found.name@ == name@
                        &&& forall|j: int| 0 <= j < i ==> (#[trigger] self.instances@[j]).name@ != name@
                    },
                None => !names(self.instances@).contains(name@),
            },
    {
        let mut i: usize = 0;
        while i < self.instances.len()
            invariant
                i <= self.instances@.len(),
                forall|j: int| 0 <= j < i ==> (#[trigger] self.instances@[j]).name@ != name@,
            decreases self.instances@.len() - i,
        {
            if same(self.instances[i].name.as_str(), name) {
                return Some(&self.instances[i]);
            }
            i += 1;
        }
        proof {
            let all = names(self.instances@);
            assert forall|j: int| 0 <= j < all.len() implies all[j] != name@ by {
                assert(self.instances@[j].name@ != name@);
            }
        }
        None
    }

    /// The file to start from.
    pub fn default_toml() -> (res: String)
        ensures
            res@ == "# ONYX Server - Process Manager Configuration
# This file defines multiple server instances that can be managed together

# Example instance configuration:
# [[instance]]
# name = \"tech-chat\"           # Unique instance name
# config = \"configs/tech.toml\" # Path to instance config file
# port = 3000                  # Override port (optional, will use port from config if not specified)
# enabled = true               # Enable this instance (default: true)
# auto_restart = false         # Auto-restart on crash (default: false)

[[instance]]
name = \"main-group\"
config = \"config.toml\"
port = 3000
enabled = true
auto_restart = false

# Uncomment to add more instances:
# [[instance]]
# name = \"news-channel\"
# config = \"configs/news.toml\"
# port = 3001
# enabled = true
# auto_restart = true

# [[instance]]
# name = \"gaming-chat\"
# config = \"configs/gaming.toml\"
# port = 3002
# enabled = true
# auto_restart = false
"@,
    {
        "# ONYX Server - Process Manager Configuration
# This file defines multiple server instances that can be managed together

# Example instance configuration:
# [[instance]]
# name = \"tech-chat\"           # Unique instance name
# config = \"configs/tech.toml\" # Path to instance config file
# port = 3000                  # Override port (optional, will use port from config if not specified)
# enabled = true               # Enable this instance (default: true)
# auto_restart = false         # Auto-restart on crash (default: false)

[[instance]]
name = \"main-group\"
config = \"config.toml\"
port = 3000
enabled = true
auto_restart = false

# Uncomment to add more instances:
# [[instance]]
# name = \"news-channel\"
# config = \"configs/news.toml\"
# port = 3001
# enabled = true
# auto_restart = true

# [[instance]]
# name = \"gaming-chat\"
# config = \"configs/gaming.toml\"
# port = 3002
# enabled = true
# auto_restart = false
".to_owned()
    }
}

/// The message when the instances could not be written out.
pub fn save_failure(serialized: bool, error: &str) -> (res: String)
    ensures
        res@ == (if serialized {
            "Failed to write config: "@ + error@
        } else {
            "Failed to serialize config: "@ + error@
        }),
{
    if serialized {
        glue("Failed to write config: ", error)
    } else {
        glue("Failed to serialize config: ", error)
    }
}

/// Instances are loaded if and only if no two of them have the same name.
pub proof fn loaded_names_are_unique(config: InstancesConfig)
    ensures
        loaded(Ok(config)) is Ok <==> names(config.instances@).no_duplicates(),
        loaded(Ok(config)) matches Ok(c) ==> c == config,
{
    repeated_or_unique(names(config.instances@));
}

proof fn repeated_or_unique(all: Seq<Seq<char>>)
    ensures
        first_repeated(all) is None <==> all.no_duplicates(),
    decreases all.len(),
{
    if all.len() > 0 {
        let rest = all.drop_last();
        repeated_or_unique(rest);
        if first_repeated(all) is None {
            assert forall|i: int, j: int| 0 <= i < all.len() && 0 <= j < all.len() && i != j implies all[i]
                != all[j] by {
                if i < rest.len() && j < rest.len() {
                    assert(rest[i] != rest[j]);
                } else if i < rest.len() {
                    assert(rest.contains(rest[i]));
                } else {
                    assert(rest.contains(rest[j]));
                }
            }
        }
        if all.no_duplicates() {
            assert forall|i: int, j: int| 0 <= i < rest.len() && 0 <= j < rest.len() && i != j implies rest[i]
                != rest[j] by {
                assert(all[i] != all[j]);
            }
            if rest.contains(all.last()) {
                let i = choose|i: int| 0 <= i < rest.len() && rest[i] == all.last();
                assert(all[i] == all[all.len() - 1]);
            }
        }
    }
}

proof fn the_first_repetition_is_named(all: Seq<Seq<char>>)
    ensures
        first_repeated(all) matches Some(n) ==> exists|i: int, j: int|
            {
                &&& 0 <= i < j < all.len()
                &&& #[trigger] all[i] == n
                &&& #[trigger] all[j] == n
                &&& all.take(j).no_duplicates()
            },
    decreases all.len(),
{
    if all.len() > 0 {
        let rest = all.drop_last();
        the_first_repetition_is_named(rest);
        repeated_or_unique(rest);
        if let Some(n) = first_repeated(rest) {
            let (i, j) = choose|i: int, j: int|
                {
                    &&& 0 <= i < j < rest.len()
                    &&& #[trigger] rest[i] == n
                    &&& #[trigger] rest[j] == n
                    &&& rest.take(j).no_duplicates()
                };
            assert(all[i] == n && all[j] == n);
            assert(all.take(j) =~= rest.take(j));
        } else if rest.contains(all.last()) {
            let i = choose|i: int| 0 <= i < rest.len() && rest[i] == all.last();
            let j = all.len() - 1;
            assert(all[i] == all.last() && all[j] == all.last());
            assert(all.take(j) =~= rest);
        }
    }
}

/// What is not loaded because two instances have the same name is refused with the
/// first name that comes a second time.
pub proof fn the_repeated_name_is_complained_about(config: InstancesConfig)
    ensures
        loaded(Ok(config)) matches Err(message) ==> exists|i: int, j: int|
            {
                &&& 0 <= i < j < config.instances@.len()
                &&& (#[trigger] config.instances@[i]).name@ == (#[trigger] config.instances@[j]).name@
                &&& message == "Duplicate instance name found: '"@ + config.instances@[j].name@
                    + "'. All instance names must be unique."@
                &&& names(config.instances@).take(j).no_duplicates()
            },
{
    let all = names(config.instances@);
    the_first_repetition_is_named(all);
    if let Some(n) = first_repeated(all) {
        let (i, j) = choose|i: int, j: int|
            {
                &&& 0 <= i < j < all.len()
                &&& #[trigger] all[i] == n
                &&& #[trigger] all[j] == n
                &&& all.take(j).no_duplicates()
            };
        assert(config.instances@[i].name@ == config.instances@[j].name@);
    }
}

/// An instance is found by its name: the first of that name, and none only where no
/// instance has it.
pub proof fn an_instance_is_found_by_its_name(config: InstancesConfig, name: &str, res: Option<&Instance>, i: int)
    requires
        call_ensures(InstancesConfig::find_instance, (&config, name), res),
        0 <= i < config.instances@.len(),
        config.instances@[i].name@ == name@,
        forall|j: int| 0 <= j < i ==> (#[trigger] config.instances@[j]).name@ != name@,
    ensures
        res == Some(&config.instances@[i]),
{
    if res is None {
        assert(names(config.instances@)[i] == name@);
    }
}

} // verus!
