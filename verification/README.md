# sentinel_sidecar

A traffic-governance sidecar for Kubernetes pods, with its decision logic
verified in Verus.

- `src/` is the verified library:
  - `byte_order`: host and network byte order, for hosts of either endianness;
  - `datapath`: a verified model of the kernel program's hooks (`connect4`,
    `sock_ops`): what they decide for a connection (leave it alone, or stash
    its original destination and redirect it to the sidecar; publish the
    destination once established).  The kernel program itself is a `no_std`
    eBPF object built for the `bpfel` target, outside this crate; `app/`
    loads that object;
  - `bpf`: the sidecar's keys into the shared maps and the decoding of what
    it finds there, the ignored ports, the choice of the kernel object;
  - `cgroup`: the cgroups, read from `/proc/self/cgroup`, that scope
    interception to the pod and exempt the sidecar itself;
  - `proxy`: the per-connection state machine of the outbound proxy;
  - `sentinel`: the flow rules and the flow check, through `sentinel-core`;
  - `interception`: laws over the whole path, chiefly that the proxy
    recovers the destination each intercepted connection was opened to.
- `app/` is the program: it loads the kernel programs with `aya`, runs the
  proxy on `tokio`, and follows the control plane over gRPC.
- `tests/` exercises the library on concrete values.
