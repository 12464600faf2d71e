use crate::error::VectaDBError;
use crate::text::{first_position, key_position, owned, str_eq, views};
use vstd::prelude::*;

verus! {

/// Where the OpenAI API is reached where a configuration does not say.
pub fn default_openai_base_url() -> (url: String)
    ensures
        url@ == "https://api.openai.com/v1"@,
{
    owned("https://api.openai.com/v1")
}

/// Where the Cohere API is reached where a configuration does not say.
pub fn default_cohere_base_url() -> (url: String)
    ensures
        url@ == "https://api.cohere.ai/v1"@,
{
    owned("https://api.cohere.ai/v1")
}

/// Where the Hugging Face API is reached where a configuration does not say.
pub fn default_hf_base_url() -> (url: String)
    ensures
        url@ == "https://api-inference.huggingface.co"@,
{
    owned("https://api-inference.huggingface.co")
}

/// The length of a provider's vectors where a configuration does not say.
pub fn default_dimension() -> (dim: usize)
    ensures
        dim == 1536,
{
    1536
}

/// How many texts go into one request where a configuration does not say.
pub fn default_batch_size() -> (size: usize)
    ensures
        size == 100,
{
    100
}

/// How many seconds a request may take where a configuration does not say.
pub fn default_timeout() -> (secs: u64)
    ensures
        secs == 30,
{
    30
}

/// What Cohere is told the texts are for where a configuration does not say.
pub fn default_input_type() -> (input_type: String)
    ensures
        input_type@ == "search_document"@,
{
    owned("search_document")
}

/// What a provider needs to be reached.
#[derive(Debug, Clone)]
pub enum ProviderConfig {
    OpenAI {
        api_key: String,
        model: String,
        base_url: String,
        dimension: usize,
        batch_size: usize,
        timeout_secs: u64,
    },
    Cohere {
        api_key: String,
        model: String,
        base_url: String,
        dimension: usize,
        batch_size: usize,
        timeout_secs: u64,
        input_type: String,
    },
    HuggingFace {
        api_key: String,
        model: String,
        base_url: String,
        dimension: usize,
        batch_size: usize,
        timeout_secs: u64,
    },
    Voyage {
        api_key: String,
        model: String,
        base_url: String,
        dimension: usize,
        batch_size: usize,
        timeout_secs: u64,
    },
    Local { model: String, dimension: usize, batch_size: usize },
}

/// The configuration of one embedding plugin.
#[derive(Debug, Clone)]
pub struct PluginConfig {
    pub name: String,
    pub provider: ProviderConfig,
}

/// Whether a plugin can do its work.
#[derive(Debug, Clone)]
pub struct PluginHealth {
    pub healthy: bool,
    pub message: Option<String>,
    pub latency_ms: Option<u64>,
}

/// What a plugin has done so far.
#[derive(Debug, Clone, Copy, PartialEq, Eq, Structural)]
pub struct PluginStats {
    pub total_requests: u64,
    pub total_tokens: u64,
    pub total_embeddings: u64,
    pub failed_requests: u64,
    /// The time that all requests took together, in milliseconds.
    pub total_latency_ms: u64,
}

impl PluginStats {
    /// The statistics of a plugin that has done nothing.
    pub fn new() -> (stats: Self)
        ensures
            stats == (PluginStats {
                total_requests: 0,
                total_tokens: 0,
                total_embeddings: 0,
                failed_requests: 0,
                total_latency_ms: 0,
            }),
    {
        PluginStats {
            total_requests: 0,
            total_tokens: 0,
            total_embeddings: 0,
            failed_requests: 0,
            total_latency_ms: 0,
        }
    }

    /// The statistics after one more request, which took `latency_ms` and gave
    /// `embeddings` vectors, or failed. Counters stop at the greatest number they can
    /// hold.
    pub fn record(self, latency_ms: u64, embeddings: u64, failed: bool) -> (stats: Self)
        ensures
            stats.total_requests == held(self.total_requests + 1),
            stats.total_tokens == self.total_tokens,
            stats.total_embeddings == if failed {
                self.total_embeddings
            } else {
                held(self.total_embeddings + embeddings)
            },
            stats.failed_requests == if failed {
                held(self.failed_requests + 1)
            } else {
                self.failed_requests
            },
            stats.total_latency_ms == held(self.total_latency_ms + latency_ms),
    {
        PluginStats {
            total_requests: add_held(self.total_requests, 1),
            total_tokens: self.total_tokens,
            total_embeddings: if failed {
                self.total_embeddings
            } else {
                add_held(self.total_embeddings, embeddings)
            },
            failed_requests: if failed {
                add_held(self.failed_requests, 1)
            } else {
                self.failed_requests
            },
            total_latency_ms: add_held(self.total_latency_ms, latency_ms),
        }
    }

    /// The mean time of a request in milliseconds, rounded down; zero before the
    /// first request.
    pub fn avg_latency_ms(&self) -> (mean: u64)
        ensures
            mean == if self.total_requests == 0 {
                0
            } else {
                self.total_latency_ms as int / self.total_requests as int
            },
    {
        if self.total_requests == 0 {
            0
        } else {
            self.total_latency_ms / self.total_requests
        }
    }
}

/// A count, stopped at the greatest number a counter can hold.
pub open spec fn held(count: int) -> u64 {
    if count > u64::MAX {
        u64::MAX
    } else {
        count as u64
    }
}

/// The sum of two counts, stopped at the greatest number a counter can hold.
pub fn add_held(a: u64, b: u64) -> (sum: u64)
    ensures
        sum == held(a + b),
{
    if a > u64::MAX - b {
        u64::MAX
    } else {
        a + b
    }
}

/// What the registry knows of a plugin.
#[derive(Debug, Clone)]
pub struct PluginInfo {
    /// The name that the plugin is registered and found by.
    pub name: String,
    pub version: String,
    /// The length of the plugin's vectors.
    pub dimension: usize,
    pub max_batch_size: usize,
}

/// The embedding plugins that are there, and the one in use.
#[derive(Debug, Clone)]
pub struct PluginRegistry {
    pub plugins: Vec<PluginInfo>,
    pub active_plugin: Option<String>,
}

/// The names of a list of plugins.
pub open spec fn plugin_names(plugins: Seq<PluginInfo>) -> Seq<Seq<char>> {
    plugins.map_values(|p: PluginInfo| p.name@)
}

/// The message of a name that no plugin is registered by.
pub open spec fn no_plugin_text(name: Seq<char>) -> Seq<char> {
    "Plugin '"@ + name + "' not found"@
}

fn no_plugin(name: &str) -> (error: VectaDBError)
    ensures
        error is InvalidInput,
        error.detail() == no_plugin_text(name@),
{
    let mut text = owned("Plugin '");
    text.append(name);
    text.append("' not found");
    VectaDBError::InvalidInput(text)
}

impl PluginRegistry {
    /// A registry without plugins.
    pub fn new() -> (registry: Self)
        ensures
            registry.plugins@.len() == 0,
            registry.active_plugin is None,
    {
        PluginRegistry { plugins: Vec::new(), active_plugin: None }
    }

    /// Where the plugin of a name stands in the registry.
    pub fn position(&self, name: &str) -> (pos: Option<usize>)
        ensures
            match pos {
                Some(i) => first_position(plugin_names(self.plugins@), name@) == Some(i as int)
                    && i < self.plugins.len(),
                None => first_position(plugin_names(self.plugins@), name@) is None,
            },
    {
        let mut i: usize = 0;
        while i < self.plugins.len()
            invariant
                i <= self.plugins.len(),
                first_position(plugin_names(self.plugins@), name@) == key_position(
                    plugin_names(self.plugins@),
                    name@,
                    i as int,
                ),
            decreases self.plugins.len() - i,
        {
            if str_eq(self.plugins[i].name.as_str(), name) {
                return Some(i);
            }
            i += 1;
        }
        None
    }

    /// Registers a plugin, in the place of the one of the same name if there is one.
    /// The first plugin registered becomes the one in use.
    pub fn register(&mut self, plugin: PluginInfo)
        ensures
            final(self).plugins@ == match first_position(
                plugin_names(old(self).plugins@),
                plugin.name@,
            ) {
                Some(i) => old(self).plugins@.update(i, plugin),
                None => old(self).plugins@.push(plugin),
            },
            match old(self).active_plugin {
                Some(name) => final(self).active_plugin == Some(name),
                None => final(self).active_plugin matches Some(name) && name@ == plugin.name@,
            },
    {
        let name = plugin.name.clone();
        match self.position(name.as_str()) {
            Some(i) => {
                self.plugins.set(i, plugin);
            },
            None => {
                self.plugins.push(plugin);
            },
        }
        if self.active_plugin.is_none() {
            self.active_plugin = Some(name);
        }
    }

    /// Puts a registered plugin in use; an error, and no change, where none is
    /// registered by the name.
    pub fn set_active(&mut self, name: &str) -> (result: Result<(), VectaDBError>)
        ensures
            final(self).plugins == old(self).plugins,
            result is Ok <==> plugin_names(old(self).plugins@).contains(name@),
            result is Ok ==> (final(self).active_plugin matches Some(active) && active@ == name@),
            result matches Err(e) ==> final(self).active_plugin == old(self).active_plugin && e
                is InvalidInput && e.detail() == no_plugin_text(name@),
    {
        proof {
            crate::text::lemma_first_position_contains(plugin_names(self.plugins@), name@);
        }
        if self.position(name).is_some() {
            self.active_plugin = Some(owned(name));
            Ok(())
        } else {
            Err(no_plugin(name))
        }
    }

    /// The plugin in use; an error where none is in use, or where the one in use is
    /// not registered.
    pub fn get_active(&self) -> (result: Result<&PluginInfo, VectaDBError>)
        ensures
            match self.active_plugin {
                None => result matches Err(e) && e is InvalidInput && e.detail()
                    == "No active plugin set"@,
                Some(name) => match first_position(plugin_names(self.plugins@), name@) {
                    Some(i) => result matches Ok(p) && *p == self.plugins@[i],
                    None => result matches Err(e) && e is InvalidInput && e.detail()
                        == no_plugin_text(name@),
                },
            },
    {
        match &self.active_plugin {
            None => Err(VectaDBError::InvalidInput(owned("No active plugin set"))),
            Some(name) => match self.position(name.as_str()) {
                Some(i) => Ok(&self.plugins[i]),
                None => Err(no_plugin(name.as_str())),
            },
        }
    }

    /// The plugin registered by a name.
    pub fn get(&self, name: &str) -> (found: Option<&PluginInfo>)
        ensures
            match first_position(plugin_names(self.plugins@), name@) {
                Some(i) => found matches Some(p) && *p == self.plugins@[i],
                None => found is None,
            },
    {
        match self.position(name) {
            Some(i) => Some(&self.plugins[i]),
            None => None,
        }
    }

    /// The names of the registered plugins, in the order they were registered.
    pub fn list_plugins(&self) -> (names: Vec<String>)
        ensures
            views(names@) == plugin_names(self.plugins@),
    {
        let mut names: Vec<String> = Vec::new();
        let mut i: usize = 0;
        assert(views(names@) =~= plugin_names(self.plugins@).take(0));
        while i < self.plugins.len()
            invariant
                i <= self.plugins.len(),
                views(names@) == plugin_names(self.plugins@).take(i as int),
            decreases self.plugins.len() - i,
        {
            let ghost before = views(names@);
            names.push(self.plugins[i].name.clone());
            assert(views(names@) =~= before.push(self.plugins@[i as int].name@));
            assert(plugin_names(self.plugins@).take(i + 1) =~= plugin_names(
                self.plugins@,
            ).take(i as int).push(self.plugins@[i as int].name@));
            i += 1;
        }
        assert(plugin_names(self.plugins@).take(self.plugins.len() as int) == plugin_names(
            self.plugins@,
        ));
        names
    }
}

} // verus!
