use vstd::prelude::*;
use vstd::string::StringExecFns;

verus! {

pub const NETWORK_FINALIZER: &'static str = "networks.named-data.net/finalizer";
pub const NETWORK_MANAGER_NAME: &'static str = "network-controller";
pub const CONTAINER_CONFIG_DIR: &'static str = "/etc/ndnd";
pub const CONTAINER_SOCKET_DIR: &'static str = "/run/ndnd";
pub const HOST_CONFIG_DIR: &'static str = "/etc/ndnd";
pub const HOST_SOCKET_DIR: &'static str = "/run/ndnd";
pub const NETWORK_KIND: &'static str = "Network";
pub const NETWORK_API_VERSION: &'static str = "named-data.net/v1alpha1";

/// A key/value pair of labels, annotations or a node selector.
#[derive(Debug)]
pub struct Pair {
    pub key: String,
    pub value: String,
}

#[derive(Debug)]
pub struct NetworkSpec {
    pub prefix: String,
    pub udp_unicast_port: i32,
    pub node_selector: Option<Vec<Pair>>,
}

#[derive(Debug)]
pub struct NetworkStatus {
    pub ds_created: Option<bool>,
}

/// A network as the controller observes it.
#[derive(Debug)]
pub struct Network {
    pub name: String,
    pub namespace: Option<String>,
    pub uid: Option<String>,
    pub labels: Vec<Pair>,
    pub annotations: Vec<Pair>,
    pub spec: NetworkSpec,
    pub status: Option<NetworkStatus>,
}

/// `dir/file`.
pub open spec fn path_in(dir: Seq<char>, file: Seq<char>) -> Seq<char> {
    dir + "/"@ + file
}

pub open spec fn socket_file_spec(name: Seq<char>) -> Seq<char> {
    name + ".sock"@
}

pub open spec fn config_file_spec(name: Seq<char>) -> Seq<char> {
    name + ".yml"@
}

/// Concatenation of two texts into a new string.
pub fn join(a: &str, b: &str) -> (r: String)
    ensures
        r@ == a@ + b@,
{
    let mut r = String::from_str(a);
    r.append(b);
    r
}

fn join_path(dir: &str, file: &str) -> (r: String)
    ensures
        r@ == path_in(dir@, file@),
{
    let mut r = String::from_str(dir);
    r.append("/");
    r.append(file);
    r
}

impl Network {
    pub fn socket_file_name(&self) -> (r: String)
        ensures
            r@ == socket_file_spec(self.name@),
    {
        join(self.name.as_str(), ".sock")
    }

    pub fn container_socket_path(&self) -> (r: String)
        ensures
            r@ == path_in(CONTAINER_SOCKET_DIR@, socket_file_spec(self.name@)),
    {
        join_path(CONTAINER_SOCKET_DIR, self.socket_file_name().as_str())
    }

    pub fn host_socket_path(&self) -> (r: String)
        ensures
            r@ == path_in(HOST_SOCKET_DIR@, socket_file_spec(self.name@)),
    {
        join_path(HOST_SOCKET_DIR, self.socket_file_name().as_str())
    }

    pub fn config_file_name(&self) -> (r: String)
        ensures
            r@ == config_file_spec(self.name@),
    {
        join(self.name.as_str(), ".yml")
    }

    pub fn container_config_path(&self) -> (r: String)
        ensures
            r@ == path_in(CONTAINER_CONFIG_DIR@, config_file_spec(self.name@)),
    {
        join_path(CONTAINER_CONFIG_DIR, self.config_file_name().as_str())
    }

    pub fn host_config_path(&self) -> (r: String)
        ensures
            r@ == path_in(HOST_CONFIG_DIR@, config_file_spec(self.name@)),
    {
        join_path(HOST_CONFIG_DIR, self.config_file_name().as_str())
    }
}

} // verus!
