use vstd::prelude::*;
use vstd::string::StringExecFns;

use crate::addr_set::text_seq;
use crate::network::{
    config_file_spec, join, path_in, socket_file_spec, Network, NetworkSpec, Pair, CONTAINER_CONFIG_DIR,
    CONTAINER_SOCKET_DIR, HOST_CONFIG_DIR, HOST_SOCKET_DIR, NETWORK_API_VERSION, NETWORK_KIND,
};

verus! {

/// Image of the forwarding daemon.
pub const DAEMON_IMAGE: &'static str = "ghcr.io/named-data/ndnd:20250405";
/// Label key by which a workload selects its pods.
pub const WORKLOAD_LABEL_KEY: &'static str = "network";

/// The decimal text of an integer, as `ToString` writes it.
pub uninterp spec fn decimal_of(n: int) -> Seq<char>;

/// Relies on `<i32 as ToString>::to_string`: the decimal text of the number,
/// which depends on the number alone.
#[verifier::external_body]
pub(crate) fn decimal_text(n: i32) -> (r: String)
    ensures
        r@ == decimal_of(n as int),
{
    n.to_string()
}

pub open spec fn opt_text(o: Option<String>) -> Option<Seq<char>> {
    match o {
        Some(s) => Some(s@),
        None => None,
    }
}

pub open spec fn pairs_view(v: Seq<Pair>) -> Seq<(Seq<char>, Seq<char>)> {
    v.map_values(|p: Pair| (p.key@, p.value@))
}

pub open spec fn opt_pairs_view(o: Option<Vec<Pair>>) -> Option<Seq<(Seq<char>, Seq<char>)>> {
    match o {
        Some(v) => Some(pairs_view(v@)),
        None => None,
    }
}

/// A back-reference to the object that controls another.
#[derive(Debug)]
pub struct OwnerRef {
    pub api_version: String,
    pub kind: String,
    pub name: String,
    pub uid: String,
    pub controller: bool,
}

pub struct OwnerRefView {
    pub api_version: Seq<char>,
    pub kind: Seq<char>,
    pub name: Seq<char>,
    pub uid: Seq<char>,
    pub controller: bool,
}

impl View for OwnerRef {
    type V = OwnerRefView;

    open spec fn view(&self) -> OwnerRefView {
        OwnerRefView {
            api_version: self.api_version@,
            kind: self.kind@,
            name: self.name@,
            uid: self.uid@,
            controller: self.controller,
        }
    }
}

/// An environment variable: a literal value or a field of the pod.
#[derive(Debug)]
pub struct EnvVar {
    pub name: String,
    pub value: Option<String>,
    pub field_path: Option<String>,
}

pub type EnvVarView = (Seq<char>, Option<Seq<char>>, Option<Seq<char>>);

impl View for EnvVar {
    type V = EnvVarView;

    open spec fn view(&self) -> EnvVarView {
        (self.name@, opt_text(self.value), opt_text(self.field_path))
    }
}

#[derive(Debug)]
pub struct ContainerPort {
    pub container_port: i32,
    pub host_port: i32,
    pub protocol: String,
}

pub type ContainerPortView = (int, int, Seq<char>);

impl View for ContainerPort {
    type V = ContainerPortView;

    open spec fn view(&self) -> ContainerPortView {
        (self.container_port as int, self.host_port as int, self.protocol@)
    }
}

#[derive(Debug)]
pub struct VolumeMount {
    pub name: String,
    pub mount_path: String,
    pub read_only: Option<bool>,
}

pub type VolumeMountView = (Seq<char>, Seq<char>, Option<bool>);

impl View for VolumeMount {
    type V = VolumeMountView;

    open spec fn view(&self) -> VolumeMountView {
        (self.name@, self.mount_path@, self.read_only)
    }
}

#[derive(Debug)]
pub struct Container {
    pub name: String,
    pub image: Option<String>,
    pub command: Vec<String>,
    pub args: Option<Vec<String>>,
    pub env: Vec<EnvVar>,
    pub privileged: Option<bool>,
    pub ports: Vec<ContainerPort>,
    pub volume_mounts: Vec<VolumeMount>,
}

pub struct ContainerView {
    pub name: Seq<char>,
    pub image: Option<Seq<char>>,
    pub command: Seq<Seq<char>>,
    pub args: Option<Seq<Seq<char>>>,
    pub env: Seq<EnvVarView>,
    pub privileged: Option<bool>,
    pub ports: Seq<ContainerPortView>,
    pub volume_mounts: Seq<VolumeMountView>,
}

impl View for Container {
    type V = ContainerView;

    open spec fn view(&self) -> ContainerView {
        ContainerView {
            name: self.name@,
            image: opt_text(self.image),
            command: text_seq(self.command@),
            args: match self.args {
                Some(a) => Some(text_seq(a@)),
                None => None,
            },
            env: self.env@.map_values(|e: EnvVar| e@),
            privileged: self.privileged,
            ports: self.ports@.map_values(|p: ContainerPort| p@),
            volume_mounts: self.volume_mounts@.map_values(|m: VolumeMount| m@),
        }
    }
}

/// A directory of the node, created if absent, mounted into the pods.
#[derive(Debug)]
pub struct HostVolume {
    pub name: String,
    pub path: String,
    pub path_type: String,
}

pub type HostVolumeView = (Seq<char>, Seq<char>, Seq<char>);

impl View for HostVolume {
    type V = HostVolumeView;

    open spec fn view(&self) -> HostVolumeView {
        (self.name@, self.path@, self.path_type@)
    }
}

/// The per-node workload that realises a network.
#[derive(Debug)]
pub struct WorkloadDescriptor {
    pub name: String,
    pub owner: OwnerRef,
    /// Labels of the workload, of its pod template, and its match selector.
    pub labels: Vec<Pair>,
    pub service_account: Option<String>,
    pub host_network: bool,
    pub dns_policy: String,
    pub node_selector: Option<Vec<Pair>>,
    pub init_containers: Vec<Container>,
    pub containers: Vec<Container>,
    pub volumes: Vec<HostVolume>,
}

pub struct WorkloadView {
    pub name: Seq<char>,
    pub owner: OwnerRefView,
    pub labels: Seq<(Seq<char>, Seq<char>)>,
    pub service_account: Option<Seq<char>>,
    pub host_network: bool,
    pub dns_policy: Seq<char>,
    pub node_selector: Option<Seq<(Seq<char>, Seq<char>)>>,
    pub init_containers: Seq<ContainerView>,
    pub containers: Seq<ContainerView>,
    pub volumes: Seq<HostVolumeView>,
}

impl View for WorkloadDescriptor {
    type V = WorkloadView;

    open spec fn view(&self) -> WorkloadView {
        WorkloadView {
            name: self.name@,
            owner: self.owner@,
            labels: pairs_view(self.labels@),
            service_account: opt_text(self.service_account),
            host_network: self.host_network,
            dns_policy: self.dns_policy@,
            node_selector: opt_pairs_view(self.node_selector),
            init_containers: self.init_containers@.map_values(|c: Container| c@),
            containers: self.containers@.map_values(|c: Container| c@),
            volumes: self.volumes@.map_values(|v: HostVolume| v@),
        }
    }
}

pub open spec fn value_env(name: Seq<char>, value: Seq<char>) -> EnvVarView {
    (name, Some(value), None)
}

pub open spec fn field_env(name: Seq<char>, path: Seq<char>) -> EnvVarView {
    (name, None, Some(path))
}

/// Control-socket path inside the containers.
pub open spec fn socket_path_of(name: Seq<char>) -> Seq<char> {
    path_in(CONTAINER_SOCKET_DIR@, socket_file_spec(name))
}

/// Configuration path inside the containers.
pub open spec fn config_path_of(name: Seq<char>) -> Seq<char> {
    path_in(CONTAINER_CONFIG_DIR@, config_file_spec(name))
}

pub open spec fn transport_of(name: Seq<char>) -> Seq<char> {
    "unix://"@ + socket_path_of(name)
}

/// The selector labels of the workload of network `name`.
pub open spec fn selector_of(name: Seq<char>) -> Seq<(Seq<char>, Seq<char>)> {
    seq![(WORKLOAD_LABEL_KEY@, name)]
}

/// The back-reference that makes network `name` the controller of an object.
pub open spec fn controller_ref_of(name: Seq<char>, uid: Seq<char>) -> OwnerRefView {
    OwnerRefView { api_version: NETWORK_API_VERSION@, kind: NETWORK_KIND@, name, uid, controller: true }
}

pub open spec fn init_container_of(name: Seq<char>, port: int, image: Option<Seq<char>>) -> ContainerView {
    ContainerView {
        name: "init"@,
        image,
        command: seq!["/init"@, "--output"@, config_path_of(name)],
        args: None,
        env: seq![
            value_env("NDN_NETWORK_NAME"@, name),
            value_env("NDN_UDP_UNICAST_PORT"@, decimal_of(port)),
            field_env("NDN_NETWORK_NAMESPACE"@, "metadata.namespace"@),
            field_env("NDN_ROUTER_NAME"@, "spec.nodeName"@),
            field_env("NDN_NODE_NAME"@, "spec.nodeName"@),
            value_env("NDN_SOCKET_PATH"@, socket_path_of(name)),
        ],
        privileged: Some(true),
        ports: seq![],
        volume_mounts: seq![("config"@, CONTAINER_CONFIG_DIR@, Some(false))],
    }
}

pub open spec fn daemon_container_of(name: Seq<char>, port: int) -> ContainerView {
    ContainerView {
        name: "network"@,
        image: Some(DAEMON_IMAGE@),
        command: seq!["/ndnd"@],
        args: Some(seq!["daemon"@, config_path_of(name)]),
        env: seq![value_env("NDN_CLIENT_TRANSPORT"@, transport_of(name))],
        privileged: Some(true),
        ports: seq![(port, port, "UDP"@)],
        volume_mounts: seq![
            ("config"@, CONTAINER_CONFIG_DIR@, Some(true)),
            ("run-ndnd"@, CONTAINER_SOCKET_DIR@, None),
        ],
    }
}

pub open spec fn sidecar_container_of(name: Seq<char>, image: Option<Seq<char>>) -> ContainerView {
    ContainerView {
        name: "watch"@,
        image,
        command: seq!["/sidecar"@],
        args: None,
        env: seq![
            value_env("NDN_NETWORK_NAME"@, name),
            field_env("NDN_NETWORK_NAMESPACE"@, "metadata.namespace"@),
            field_env("NDN_ROUTER_NAME"@, "spec.nodeName"@),
            value_env("NDN_CLIENT_TRANSPORT"@, transport_of(name)),
        ],
        privileged: None,
        ports: seq![],
        volume_mounts: seq![("run-ndnd"@, CONTAINER_SOCKET_DIR@, None)],
    }
}

/// The workload that realises network `n`, given the controller's own image
/// and service account.
pub open spec fn workload_of(n: Network, image: Option<Seq<char>>, service_account: Option<Seq<char>>) -> WorkloadView {
    let name = n.name@;
    let port = n.spec.udp_unicast_port as int;
    WorkloadView {
        name,
        owner: controller_ref_of(name, n.uid.unwrap()@),
        labels: selector_of(name),
        service_account,
        host_network: true,
        dns_policy: "ClusterFirstWithHostNet"@,
        node_selector: opt_pairs_view(n.spec.node_selector),
        init_containers: seq![init_container_of(name, port, image)],
        containers: seq![daemon_container_of(name, port), sidecar_container_of(name, image)],
        volumes: seq![
            ("config"@, HOST_CONFIG_DIR@, "DirectoryOrCreate"@),
            ("run-ndnd"@, HOST_SOCKET_DIR@, "DirectoryOrCreate"@),
        ],
    }
}

pub open spec fn wrong_kind_message(kind: Seq<char>) -> Seq<char> {
    "Expected kind 'Network', found '"@ + kind + "'"@
}

pub open spec fn wrong_api_message(api: Seq<char>) -> Seq<char> {
    "Expected apiVersion 'named-data.net/v1alpha1', found '"@ + api + "'"@
}

pub open spec fn empty_name_message() -> Seq<char> {
    "OwnerReference name is empty"@
}

/// A network of which nothing but the name is known.
pub open spec fn named_only(n: Network, name: Seq<char>) -> bool {
    &&& n.name@ == name
    &&& n.namespace is None
    &&& n.uid is None
    &&& n.labels@.len() == 0
    &&& n.annotations@.len() == 0
    &&& n.spec.prefix@.len() == 0
    &&& n.spec.udp_unicast_port == 0
    &&& n.spec.node_selector is None
    &&& n.status is None
}

pub(crate) fn text(s: &str) -> (r: String)
    ensures
        r@ == s@,
{
    String::from_str(s)
}

pub(crate) fn copy_opt(o: &Option<String>) -> (r: Option<String>)
    ensures
        opt_text(r) == opt_text(*o),
{
    match o {
        Some(s) => Some(text(s.as_str())),
        None => None,
    }
}

/// A copy of a list of pairs with the same texts.
pub fn copy_pairs(v: &Vec<Pair>) -> (r: Vec<Pair>)
    ensures
        pairs_view(r@) == pairs_view(v@),
{
    let mut r: Vec<Pair> = Vec::new();
    let mut i: usize = 0;
    while i < v.len()
        invariant
            i <= v@.len(),
            pairs_view(r@) =~= pairs_view(v@.subrange(0, i as int)),
        decreases v@.len() - i,
    {
        let p = Pair { key: text(v[i].key.as_str()), value: text(v[i].value.as_str()) };
        let ghost pre = r@;
        r.push(p);
        proof {
            assert(v@.subrange(0, i as int + 1) =~= v@.subrange(0, i as int).push(v@[i as int]));
            assert(pairs_view(r@) =~= pairs_view(pre).push((v@[i as int].key@, v@[i as int].value@)));
        }
        i = i + 1;
    }
    assert(v@.subrange(0, v@.len() as int) =~= v@);
    r
}

fn value_var(name: &str, value: String) -> (r: EnvVar)
    ensures
        r@ == value_env(name@, value@),
{
    EnvVar { name: text(name), value: Some(value), field_path: None }
}

fn field_var(name: &str, path: &str) -> (r: EnvVar)
    ensures
        r@ == field_env(name@, path@),
{
    EnvVar { name: text(name), value: None, field_path: Some(text(path)) }
}

fn mount(name: &str, path: &str, read_only: Option<bool>) -> (r: VolumeMount)
    ensures
        r@ == (name@, path@, read_only),
{
    VolumeMount { name: text(name), mount_path: text(path), read_only }
}

fn host_volume(name: &str, path: &str) -> (r: HostVolume)
    ensures
        r@ == (name@, path@, "DirectoryOrCreate"@),
{
    HostVolume { name: text(name), path: text(path), path_type: text("DirectoryOrCreate") }
}

fn init_container(n: &Network, image: &Option<String>) -> (r: Container)
    ensures
        r@ == init_container_of(n.name@, n.spec.udp_unicast_port as int, opt_text(*image)),
{
    let cfg = n.container_config_path();
    let sock = n.container_socket_path();
    let command = vec![text("/init"), text("--output"), cfg];
    let env = vec![
        value_var("NDN_NETWORK_NAME", text(n.name.as_str())),
        value_var("NDN_UDP_UNICAST_PORT", decimal_text(n.spec.udp_unicast_port)),
        field_var("NDN_NETWORK_NAMESPACE", "metadata.namespace"),
        field_var("NDN_ROUTER_NAME", "spec.nodeName"),
        field_var("NDN_NODE_NAME", "spec.nodeName"),
        value_var("NDN_SOCKET_PATH", sock),
    ];
    let mounts = vec![mount("config", CONTAINER_CONFIG_DIR, Some(false))];
    let c = Container {
        name: text("init"),
        image: copy_opt(image),
        command,
        args: None,
        env,
        privileged: Some(true),
        ports: Vec::new(),
        volume_mounts: mounts,
    };
    assert(c@.command =~= init_container_of(n.name@, n.spec.udp_unicast_port as int, opt_text(*image)).command);
    assert(c@.env =~= init_container_of(n.name@, n.spec.udp_unicast_port as int, opt_text(*image)).env);
    assert(c@.ports =~= init_container_of(n.name@, n.spec.udp_unicast_port as int, opt_text(*image)).ports);
    assert(c@.volume_mounts =~= init_container_of(n.name@, n.spec.udp_unicast_port as int, opt_text(*image)).volume_mounts);
    c
}

fn daemon_container(n: &Network) -> (r: Container)
    ensures
        r@ == daemon_container_of(n.name@, n.spec.udp_unicast_port as int),
{
    let port = n.spec.udp_unicast_port;
    let command = vec![text("/ndnd")];
    let args = vec![text("daemon"), n.container_config_path()];
    let env = vec![value_var("NDN_CLIENT_TRANSPORT", join("unix://", n.container_socket_path().as_str()))];
    let ports = vec![ContainerPort { container_port: port, host_port: port, protocol: text("UDP") }];
    let mounts = vec![
        mount("config", CONTAINER_CONFIG_DIR, Some(true)),
        mount("run-ndnd", CONTAINER_SOCKET_DIR, None),
    ];
    let c = Container {
        name: text("network"),
        image: Some(text(DAEMON_IMAGE)),
        command,
        args: Some(args),
        env,
        privileged: Some(true),
        ports,
        volume_mounts: mounts,
    };
    let ghost want = daemon_container_of(n.name@, n.spec.udp_unicast_port as int);
    assert(c@.command =~= want.command);
    assert(text_seq(args@) =~= want.args.unwrap());
    assert(c@.env =~= want.env);
    assert(c@.ports =~= want.ports);
    assert(c@.volume_mounts =~= want.volume_mounts);
    c
}

fn sidecar_container(n: &Network, image: &Option<String>) -> (r: Container)
    ensures
        r@ == sidecar_container_of(n.name@, opt_text(*image)),
{
    let command = vec![text("/sidecar")];
    let env = vec![
        value_var("NDN_NETWORK_NAME", text(n.name.as_str())),
        field_var("NDN_NETWORK_NAMESPACE", "metadata.namespace"),
        field_var("NDN_ROUTER_NAME", "spec.nodeName"),
        value_var("NDN_CLIENT_TRANSPORT", join("unix://", n.container_socket_path().as_str())),
    ];
    let mounts = vec![mount("run-ndnd", CONTAINER_SOCKET_DIR, None)];
    let c = Container {
        name: text("watch"),
        image: copy_opt(image),
        command,
        args: None,
        env,
        privileged: None,
        ports: Vec::new(),
        volume_mounts: mounts,
    };
    let ghost want = sidecar_container_of(n.name@, opt_text(*image));
    assert(c@.command =~= want.command);
    assert(c@.env =~= want.env);
    assert(c@.ports =~= want.ports);
    assert(c@.volume_mounts =~= want.volume_mounts);
    c
}

impl Network {
    /// The back-reference that makes this network the controller of an
    /// object it owns.
    pub fn controller_owner_ref(&self) -> (r: OwnerRef)
        requires
            self.uid.is_some(),
        ensures
            r@ == controller_ref_of(self.name@, self.uid.unwrap()@),
    {
        let uid = match &self.uid {
            Some(u) => text(u.as_str()),
            None => text(""),
        };
        OwnerRef {
            api_version: text(NETWORK_API_VERSION),
            kind: text(NETWORK_KIND),
            name: text(self.name.as_str()),
            uid,
            controller: true,
        }
    }

    /// Reads back the network that an owner reference names; only the name
    /// is known of it.
    pub fn try_from(owner_ref: OwnerRef) -> (r: Result<Network, String>)
        ensures
            owner_ref.kind@ != NETWORK_KIND@ ==> (r is Err && r->Err_0@ == wrong_kind_message(owner_ref.kind@)),
            owner_ref.kind@ == NETWORK_KIND@ && owner_ref.api_version@ != NETWORK_API_VERSION@
                ==> (r is Err && r->Err_0@ == wrong_api_message(owner_ref.api_version@)),
            owner_ref.kind@ == NETWORK_KIND@ && owner_ref.api_version@ == NETWORK_API_VERSION@
                && owner_ref.name@.len() == 0 ==> (r is Err && r->Err_0@ == empty_name_message()),
            r is Ok <==> owner_ref.kind@ == NETWORK_KIND@ && owner_ref.api_version@ == NETWORK_API_VERSION@
                && owner_ref.name@.len() > 0,
            r is Ok ==> named_only(r->Ok_0, owner_ref.name@),
    {
        let kind = text(NETWORK_KIND);
        if !(owner_ref.kind == kind) {
            let m = join(join("Expected kind 'Network', found '", owner_ref.kind.as_str()).as_str(), "'");
            return Err(m);
        }
        let api = text(NETWORK_API_VERSION);
        if !(owner_ref.api_version == api) {
            let m = join(join("Expected apiVersion 'named-data.net/v1alpha1', found '", owner_ref.api_version.as_str()).as_str(), "'");
            return Err(m);
        }
        if owner_ref.name.as_str().is_empty() {
            return Err(text("OwnerReference name is empty"));
        }
        Ok(Network {
            name: owner_ref.name,
            namespace: None,
            uid: None,
            labels: Vec::new(),
            annotations: Vec::new(),
            spec: NetworkSpec { prefix: String::new(), udp_unicast_port: 0, node_selector: None },
            status: None,
        })
    }

    /// The workload descriptor of this network, given the controller's own
    /// container image and service account.
    pub fn create_owned_daemonset(&self, image: Option<String>, service_account: Option<String>) -> (r: WorkloadDescriptor)
        requires
            self.uid.is_some(),
        ensures
            r@ == workload_of(*self, opt_text(image), opt_text(service_account)),
    {
        let labels = vec![Pair { key: text(WORKLOAD_LABEL_KEY), value: text(self.name.as_str()) }];
        let node_selector = match &self.spec.node_selector {
            Some(v) => Some(copy_pairs(v)),
            None => None,
        };
        let init = init_container(self, &image);
        let daemon = daemon_container(self);
        let sidecar = sidecar_container(self, &image);
        let ghost (gi, gd, gs) = (init, daemon, sidecar);
        let w = WorkloadDescriptor {
            name: text(self.name.as_str()),
            owner: self.controller_owner_ref(),
            labels,
            service_account,
            host_network: true,
            dns_policy: text("ClusterFirstWithHostNet"),
            node_selector,
            init_containers: vec![init],
            containers: vec![daemon, sidecar],
            volumes: vec![host_volume("config", HOST_CONFIG_DIR), host_volume("run-ndnd", HOST_SOCKET_DIR)],
        };
        let ghost want = workload_of(*self, opt_text(image), opt_text(service_account));
        assert(w@.labels =~= want.labels);
        assert(w@.init_containers =~= want.init_containers);
        assert(w@.containers =~= want.containers);
        assert(w@.volumes =~= want.volumes);
        assert(w@ =~= want);
        w
    }
}

} // verus!
