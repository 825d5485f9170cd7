//! Verified core of a traffic-governance sidecar: the decisions of the kernel
//! hooks that redirect outbound TCP connections to the sidecar, the user-space
//! side that recovers a connection's original destination, the connection
//! handling state machine of the outbound proxy, the cgroup selection that
//! scopes interception to the pod, and the flow-control rules.
pub mod byte_order;
pub mod datapath;
pub mod cgroup;
pub mod bpf;
pub mod interception;
pub mod proxy;
pub mod sentinel;
