use ndn_operator::network::{Network, NetworkSpec, Pair};
use ndn_operator::workload::OwnerRef;

fn network(name: &str, port: i32) -> Network {
    Network {
        name: name.to_string(),
        namespace: Some("default".to_string()),
        uid: Some("uid-7".to_string()),
        labels: Vec::new(),
        annotations: Vec::new(),
        spec: NetworkSpec {
            prefix: "/ndn".to_string(),
            udp_unicast_port: port,
            node_selector: Some(vec![Pair { key: "zone".to_string(), value: "a".to_string() }]),
        },
        status: None,
    }
}

fn owner(kind: &str, api: &str, name: &str) -> OwnerRef {
    OwnerRef {
        api_version: api.to_string(),
        kind: kind.to_string(),
        name: name.to_string(),
        uid: "u".to_string(),
        controller: true,
    }
}

#[test]
fn paths_of_network() {
    let n = network("n1", 6363);
    assert_eq!(n.socket_file_name(), "n1.sock");
    assert_eq!(n.config_file_name(), "n1.yml");
    assert_eq!(n.container_socket_path(), "/run/ndnd/n1.sock");
    assert_eq!(n.host_socket_path(), "/run/ndnd/n1.sock");
    assert_eq!(n.container_config_path(), "/etc/ndnd/n1.yml");
    assert_eq!(n.host_config_path(), "/etc/ndnd/n1.yml");
}

#[test]
fn workload_of_example_network() {
    let n = network("n1", 6363);
    let w = n.create_owned_daemonset(Some("ctl:1".to_string()), Some("sa".to_string()));
    assert_eq!(w.name, "n1");
    assert_eq!(w.labels.len(), 1);
    assert_eq!(w.labels[0].key, "network");
    assert_eq!(w.labels[0].value, "n1");
    assert_eq!(w.owner.kind, "Network");
    assert_eq!(w.owner.api_version, "named-data.net/v1alpha1");
    assert_eq!(w.owner.name, "n1");
    assert_eq!(w.owner.uid, "uid-7");
    assert!(w.owner.controller);
    assert!(w.host_network);
    assert_eq!(w.dns_policy, "ClusterFirstWithHostNet");
    assert_eq!(w.service_account.as_deref(), Some("sa"));
    assert_eq!(w.node_selector.as_ref().unwrap()[0].key, "zone");

    let init = &w.init_containers[0];
    assert_eq!(init.image.as_deref(), Some("ctl:1"));
    assert_eq!(init.command, vec!["/init", "--output", "/etc/ndnd/n1.yml"]);
    let port_var = init.env.iter().find(|e| e.name == "NDN_UDP_UNICAST_PORT").unwrap();
    assert_eq!(port_var.value.as_deref(), Some("6363"));
    let ns_var = init.env.iter().find(|e| e.name == "NDN_NETWORK_NAMESPACE").unwrap();
    assert_eq!(ns_var.field_path.as_deref(), Some("metadata.namespace"));
    assert!(ns_var.value.is_none());
    let sock_var = init.env.iter().find(|e| e.name == "NDN_SOCKET_PATH").unwrap();
    assert_eq!(sock_var.value.as_deref(), Some("/run/ndnd/n1.sock"));

    assert_eq!(w.containers.len(), 2);
    let daemon = &w.containers[0];
    assert_eq!(daemon.image.as_deref(), Some("ghcr.io/named-data/ndnd:20250405"));
    assert_eq!(daemon.args.as_ref().unwrap(), &vec!["daemon".to_string(), "/etc/ndnd/n1.yml".to_string()]);
    assert_eq!(daemon.ports[0].container_port, 6363);
    assert_eq!(daemon.ports[0].host_port, 6363);
    assert_eq!(daemon.ports[0].protocol, "UDP");
    assert_eq!(daemon.env[0].value.as_deref(), Some("unix:///run/ndnd/n1.sock"));
    assert_eq!(daemon.volume_mounts[0].read_only, Some(true));

    let sidecar = &w.containers[1];
    assert_eq!(sidecar.name, "watch");
    assert_eq!(sidecar.image.as_deref(), Some("ctl:1"));
    assert_eq!(sidecar.volume_mounts.len(), 1);
    assert_eq!(sidecar.volume_mounts[0].mount_path, "/run/ndnd");

    assert_eq!(w.volumes.len(), 2);
    assert_eq!(w.volumes[0].path, "/etc/ndnd");
    assert_eq!(w.volumes[1].path, "/run/ndnd");
    assert_eq!(w.volumes[1].path_type, "DirectoryOrCreate");
}

#[test]
fn workload_is_the_same_when_generated_twice() {
    let n = network("n9", 7000);
    let a = n.create_owned_daemonset(Some("img".to_string()), None);
    let b = n.create_owned_daemonset(Some("img".to_string()), None);
    assert_eq!(a.init_containers[0].env.len(), b.init_containers[0].env.len());
    for (x, y) in a.init_containers[0].env.iter().zip(b.init_containers[0].env.iter()) {
        assert_eq!(x.name, y.name);
        assert_eq!(x.value, y.value);
        assert_eq!(x.field_path, y.field_path);
    }
    assert_eq!(a.containers[0].ports[0].host_port, 7000);
    assert_eq!(a.containers[0].ports[0].host_port, b.containers[0].ports[0].host_port);
    assert!(a.service_account.is_none() && b.service_account.is_none());
}

#[test]
fn negative_port_text() {
    let n = network("n", -5);
    let w = n.create_owned_daemonset(None, None);
    let port_var = w.init_containers[0].env.iter().find(|e| e.name == "NDN_UDP_UNICAST_PORT").unwrap();
    assert_eq!(port_var.value.as_deref(), Some("-5"));
}

#[test]
fn network_reconcile_marks_created() {
    let n = network("n1", 6363);
    let r = n.reconcile(None, None);
    assert_eq!(r.status.ds_created, Some(true));
    assert_eq!(r.workload.name, "n1");
    let ev = n.created_event(&"n1".to_string());
    assert_eq!(ev.reason, "DaemonSetCreated");
    assert_eq!(ev.note, "Created `n1` DaemonSet for `n1` Network");
    assert_eq!(ev.action, "Created");
    let ev = n.cleanup();
    assert_eq!(ev.reason, "DeleteRequested");
    assert_eq!(ev.note, "Delete `n1`");
    assert_eq!(ev.action, "Deleting");
}

#[test]
fn owner_reference_reads_back() {
    let n = Network::try_from(owner("Network", "named-data.net/v1alpha1", "n3")).unwrap();
    assert_eq!(n.name, "n3");
    assert!(n.uid.is_none());
    assert_eq!(n.spec.udp_unicast_port, 0);
    assert!(n.spec.prefix.is_empty());
}

#[test]
fn owner_reference_wrong_kind() {
    let e = Network::try_from(owner("Router", "named-data.net/v1alpha1", "n3")).unwrap_err();
    assert_eq!(e, "Expected kind 'Network', found 'Router'");
}

#[test]
fn owner_reference_wrong_api_version() {
    let e = Network::try_from(owner("Network", "v1", "n3")).unwrap_err();
    assert_eq!(e, "Expected apiVersion 'named-data.net/v1alpha1', found 'v1'");
}

#[test]
fn owner_reference_empty_name() {
    let e = Network::try_from(owner("Network", "named-data.net/v1alpha1", "")).unwrap_err();
    assert_eq!(e, "OwnerReference name is empty");
}
