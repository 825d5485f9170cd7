use sentinel_sidecar::cgroup::{
    cgroup_entry_path, container_cgroup_path, detect_cgroup_path, find_pod_cgroup_path,
    container_cgroup_entry,
};

fn lines(v: &[&str]) -> Vec<String> {
    v.iter().map(|s| s.to_string()).collect()
}

#[test]
fn entry_path_is_third_field() {
    assert_eq!(cgroup_entry_path("0::/kubepods/pod1/c1"), Some("/kubepods/pod1/c1".to_string()));
    assert_eq!(cgroup_entry_path("12:cpu,cpuacct:/a:b"), Some("/a:b".to_string()));
    assert_eq!(cgroup_entry_path("0::"), Some(String::new()));
    assert_eq!(cgroup_entry_path("0:/x"), None);
    assert_eq!(cgroup_entry_path(""), None);
}

#[test]
fn pod_cgroup_is_parent_of_container_cgroup() {
    let l = lines(&["0::/kubelet.slice/kubepods.slice/pod123.slice/cri-containerd-abc.scope"]);
    assert_eq!(
        detect_cgroup_path("/sys/fs/cgroup", &l),
        "/sys/fs/cgroup/kubelet.slice/kubepods.slice/pod123.slice"
    );
    assert_eq!(
        find_pod_cgroup_path("/sys/fs/cgroup", &l),
        Some("/sys/fs/cgroup/kubelet.slice/kubepods.slice/pod123.slice".to_string())
    );
}

#[test]
fn root_and_empty_paths_are_skipped() {
    let l = lines(&["0::/", "1:name=x:", "bad line", "0::/a/b"]);
    assert_eq!(container_cgroup_entry(&l), Some("/a/b".to_string()));
    assert_eq!(detect_cgroup_path("/sys/fs/cgroup", &l), "/sys/fs/cgroup/a");
}

#[test]
fn no_cgroup_line_gives_base() {
    let l = lines(&["0::/", "garbage"]);
    assert_eq!(find_pod_cgroup_path("/sys/fs/cgroup", &l), None);
    assert_eq!(detect_cgroup_path("/sys/fs/cgroup", &l), "/sys/fs/cgroup");
    assert_eq!(detect_cgroup_path("/sys/fs/cgroup", &Vec::new()), "/sys/fs/cgroup");
}

#[test]
fn single_component_path_has_base_as_parent() {
    let l = lines(&["0::/init.scope"]);
    assert_eq!(detect_cgroup_path("/sys/fs/cgroup", &l), "/sys/fs/cgroup");
}

#[test]
fn container_cgroup_is_first_path_below_root() {
    let l = lines(&["1:name=x:", "0::/kubepods/pod1/c1", "0::/other"]);
    assert_eq!(container_cgroup_path(&l), Some("/sys/fs/cgroup/kubepods/pod1/c1".to_string()));
    // A cgroup v1 root line before the unified line is skipped.
    let v1_root = lines(&["1:name=systemd:/", "0::/kubepods/pod1.slice/ctr.scope"]);
    assert_eq!(
        container_cgroup_path(&v1_root),
        Some("/sys/fs/cgroup/kubepods/pod1.slice/ctr.scope".to_string())
    );
    assert_eq!(detect_cgroup_path("/sys/fs/cgroup", &v1_root), "/sys/fs/cgroup/kubepods/pod1.slice");
    assert_eq!(container_cgroup_path(&lines(&["0::/"])), None);
    assert_eq!(container_cgroup_path(&lines(&["0::", "x"])), None);
}

#[test]
fn paths_outside_plain_form_follow_path_parent() {
    let l = lines(&["0::/kubepods//pod1/ctr.scope/"]);
    let joined = "/sys/fs/cgroup/kubepods//pod1/ctr.scope/";
    let expected = std::path::Path::new(joined).parent().unwrap().to_str().unwrap().to_string();
    assert_eq!(detect_cgroup_path("/sys/fs/cgroup", &l), expected);
}

#[test]
fn hooks_attach_to_parent_of_container_cgroup() {
    let l = lines(&["1:name=systemd:", "0::/kubepods/burstable/pod9/cri-containerd-1.scope"]);
    let container = container_cgroup_path(&l).unwrap();
    let pod = detect_cgroup_path("/sys/fs/cgroup", &l);
    assert_eq!(container, "/sys/fs/cgroup/kubepods/burstable/pod9/cri-containerd-1.scope");
    assert_eq!(pod, "/sys/fs/cgroup/kubepods/burstable/pod9");
    assert_eq!(std::path::Path::new(&container).parent().unwrap().to_str().unwrap(), pod);
}
