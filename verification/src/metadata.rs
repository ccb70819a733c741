//! Metadata that accompanies a remote execution request. These are plain
//! records: they carry data and decide nothing.

use vstd::prelude::*;

verus! {

/// One property of a platform: a name and its value.
#[derive(Debug, PartialEq, Eq)]
pub struct TProperty {
    pub name: String,
    pub value: String,
}

/// The platform that an action asks for, as a list of properties.
#[derive(Debug, PartialEq, Eq)]
pub struct TPlatform {
    pub properties: Vec<TProperty>,
}

#[derive(Debug, PartialEq, Eq)]
pub struct ActionHistoryInfo {
    pub action_key: String,
    pub disable_retry_on_oom: bool,
    pub _dot_dot: (),
}

#[derive(Debug, PartialEq, Eq)]
pub struct HostResourceRequirements {
    pub affinity_keys: Vec<String>,
    pub input_files_bytes: i64,
    pub _dot_dot: (),
}

#[derive(Debug, PartialEq, Eq)]
pub struct BuckInfo {
    pub build_id: String,
    pub _dot_dot: (),
}

#[derive(Debug, PartialEq, Eq)]
pub struct TDependency {
    pub smc_tier: String,
    pub id: String,
    pub _dot_dot: (),
}

#[derive(Debug, PartialEq, Eq)]
pub struct RemoteExecutionMetadata {
    pub action_history_info: Option<ActionHistoryInfo>,
    pub buck_info: Option<BuckInfo>,
    pub host_resource_requirements: Option<HostResourceRequirements>,
    pub platform: Option<TPlatform>,
    pub use_case_id: String,
    pub do_not_cache: bool,
    pub dependencies: Vec<TDependency>,
    pub _dot_dot: (),
}

impl Clone for TProperty {
    fn clone(&self) -> (r: TProperty)
        ensures
            r == *self,
    {
        TProperty { name: self.name.clone(), value: self.value.clone() }
    }
}

impl Clone for TPlatform {
    fn clone(&self) -> (r: TPlatform)
        ensures
            r.properties@ == self.properties@,
    {
        let properties = self.properties.clone();
        TPlatform { properties }
    }
}

impl Clone for ActionHistoryInfo {
    fn clone(&self) -> (r: ActionHistoryInfo)
        ensures
            r == *self,
    {
        ActionHistoryInfo {
            action_key: self.action_key.clone(),
            disable_retry_on_oom: self.disable_retry_on_oom,
            _dot_dot: (),
        }
    }
}

impl Clone for HostResourceRequirements {
    fn clone(&self) -> (r: HostResourceRequirements)
        ensures
            r.affinity_keys@ == self.affinity_keys@,
            r.input_files_bytes == self.input_files_bytes,
    {
        let affinity_keys = self.affinity_keys.clone();
        HostResourceRequirements {
            affinity_keys,
            input_files_bytes: self.input_files_bytes,
            _dot_dot: (),
        }
    }
}

impl Clone for BuckInfo {
    fn clone(&self) -> (r: BuckInfo)
        ensures
            r == *self,
    {
        BuckInfo { build_id: self.build_id.clone(), _dot_dot: () }
    }
}

impl Clone for TDependency {
    fn clone(&self) -> (r: TDependency)
        ensures
            r == *self,
    {
        TDependency { smc_tier: self.smc_tier.clone(), id: self.id.clone(), _dot_dot: () }
    }
}

impl RemoteExecutionMetadata {
    /// Whether `other` carries the same data as `self`.
    pub open spec fn same_as(self, other: RemoteExecutionMetadata) -> bool {
        &&& other.action_history_info == self.action_history_info
        &&& other.buck_info == self.buck_info
        &&& match (self.host_resource_requirements, other.host_resource_requirements) {
            (Some(a), Some(b)) => b.affinity_keys@ == a.affinity_keys@ && b.input_files_bytes
                == a.input_files_bytes,
            (None, None) => true,
            _ => false,
        }
        &&& match (self.platform, other.platform) {
            (Some(a), Some(b)) => b.properties@ == a.properties@,
            (None, None) => true,
            _ => false,
        }
        &&& other.use_case_id == self.use_case_id
        &&& other.do_not_cache == self.do_not_cache
        &&& other.dependencies@ == self.dependencies@
    }
}

impl Clone for RemoteExecutionMetadata {
    fn clone(&self) -> (r: RemoteExecutionMetadata)
        ensures
            self.same_as(r),
    {
        let dependencies = self.dependencies.clone();
        RemoteExecutionMetadata {
            action_history_info: match &self.action_history_info {
                Some(info) => Some(info.clone()),
                None => None,
            },
            buck_info: match &self.buck_info {
                Some(info) => Some(info.clone()),
                None => None,
            },
            host_resource_requirements: match &self.host_resource_requirements {
                Some(requirements) => Some(requirements.clone()),
                None => None,
            },
            platform: match &self.platform {
                Some(platform) => Some(platform.clone()),
                None => None,
            },
            use_case_id: self.use_case_id.clone(),
            do_not_cache: self.do_not_cache,
            dependencies,
            _dot_dot: (),
        }
    }
}

impl Default for TProperty {
    /// Both strings are empty.
    fn default() -> (r: TProperty)
        ensures
            r.name@.len() == 0,
            r.value@.len() == 0,
    {
        TProperty { name: String::new(), value: String::new() }
    }
}

impl Default for TPlatform {
    /// No properties.
    fn default() -> (r: TPlatform)
        ensures
            r.properties@.len() == 0,
    {
        TPlatform { properties: Vec::new() }
    }
}

impl Default for ActionHistoryInfo {
    /// An empty key, and retries on out-of-memory left on.
    fn default() -> (r: ActionHistoryInfo)
        ensures
            r.action_key@.len() == 0,
            !r.disable_retry_on_oom,
    {
        ActionHistoryInfo { action_key: String::new(), disable_retry_on_oom: false, _dot_dot: () }
    }
}

impl Default for HostResourceRequirements {
    /// No affinity keys and no input bytes.
    fn default() -> (r: HostResourceRequirements)
        ensures
            r.affinity_keys@.len() == 0,
            r.input_files_bytes == 0,
    {
        HostResourceRequirements {
            affinity_keys: Vec::new(),
            input_files_bytes: 0,
            _dot_dot: (),
        }
    }
}

impl Default for BuckInfo {
    /// An empty build id.
    fn default() -> (r: BuckInfo)
        ensures
            r.build_id@.len() == 0,
    {
        BuckInfo { build_id: String::new(), _dot_dot: () }
    }
}

impl Default for TDependency {
    /// An empty tier and an empty id.
    fn default() -> (r: TDependency)
        ensures
            r.smc_tier@.len() == 0,
            r.id@.len() == 0,
    {
        TDependency { smc_tier: String::new(), id: String::new(), _dot_dot: () }
    }
}

impl Default for RemoteExecutionMetadata {
    /// Nothing is set: every optional part is absent, the use case is empty,
    /// caching is left on and there are no dependencies.
    fn default() -> (r: RemoteExecutionMetadata)
        ensures
            r.action_history_info is None,
            r.buck_info is None,
            r.host_resource_requirements is None,
            r.platform is None,
            r.use_case_id@.len() == 0,
            !r.do_not_cache,
            r.dependencies@.len() == 0,
    {
        RemoteExecutionMetadata {
            action_history_info: None,
            buck_info: None,
            host_resource_requirements: None,
            platform: None,
            use_case_id: String::new(),
            do_not_cache: false,
            dependencies: Vec::new(),
            _dot_dot: (),
        }
    }
}

} // verus!
