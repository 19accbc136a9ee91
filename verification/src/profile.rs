//! The static sandbox profile: which namespaces are unshared, which
//! syscalls are denied and with what errno, how the root filesystem and the
//! workspace are mounted, and the default `PATH`. The profile is built once
//! and never changes; the container runtime applies it verbatim.

use vstd::prelude::*;

verus! {

/// Kernel namespaces the sandbox unshares from the host.
#[derive(Clone, Copy, Debug, PartialEq, Eq, Structural)]
pub enum NamespaceKind {
    Cgroup,
    Ipc,
    Uts,
    /// Unsharing the network namespace removes all external connectivity.
    Network,
}

/// Syscall ABIs the seccomp filter is registered for on x86_64 hosts, so
/// 32-bit and x32 system calls are covered as well.
#[derive(Clone, Copy, Debug, PartialEq, Eq, Structural)]
pub enum SeccompArch {
    X8664,
    X86,
    X32,
}

/// Process-wide sandbox configuration, immutable after construction.
pub struct SandboxProfile {
    /// Host path bind-mounted as the sandbox root filesystem.
    pub rootfs_source: String,
    /// Namespaces to unshare when spawning a child.
    pub unshared_namespaces: Vec<NamespaceKind>,
    /// Syscalls the seccomp filter refuses; everything else is allowed.
    pub denied_syscalls: Vec<String>,
    /// The errno-style signal number a denied syscall returns.
    pub denied_errno: i32,
    /// ABIs the filter is registered for.
    pub seccomp_archs: Vec<SeccompArch>,
    /// Value of `PATH` inside the sandbox.
    pub default_path_env: String,
    /// Mount point of the session workspace inside the sandbox.
    pub workspace_mount: String,
}

/// Relies on `libc::SIGSYS`: the "bad system call" signal, number 31 on
/// Linux. A denied syscall returns this value as an errno so the program
/// can handle the refusal instead of being killed.
#[verifier::external_body]
fn sigsys_signal() -> (r: i32)
    ensures
        r == 31,
{
    libc::SIGSYS
}

/// Builds the one profile this service runs under: host `/` as the root
/// filesystem, the cgroup, IPC, UTS and network namespaces unshared, the
/// ten escape- and network-relevant syscalls denied with a `SIGSYS` errno
/// on all three x86 ABIs, `PATH=/bin`, and the workspace mounted
/// read-write at `/box`.
pub fn default_profile() -> (p: SandboxProfile)
    ensures
        p.rootfs_source@ == "/"@,
        p.unshared_namespaces@.len() == 4,
        p.unshared_namespaces@[0] == NamespaceKind::Cgroup,
        p.unshared_namespaces@[1] == NamespaceKind::Ipc,
        p.unshared_namespaces@[2] == NamespaceKind::Uts,
        p.unshared_namespaces@[3] == NamespaceKind::Network,
        p.denied_syscalls@.len() == 10,
        p.denied_syscalls@[0]@ == "mount"@,
        p.denied_syscalls@[1]@ == "umount"@,
        p.denied_syscalls@[2]@ == "poweroff"@,
        p.denied_syscalls@[3]@ == "reboot"@,
        p.denied_syscalls@[4]@ == "socket"@,
        p.denied_syscalls@[5]@ == "bind"@,
        p.denied_syscalls@[6]@ == "connect"@,
        p.denied_syscalls@[7]@ == "listen"@,
        p.denied_syscalls@[8]@ == "sendto"@,
        p.denied_syscalls@[9]@ == "recvfrom"@,
        p.denied_errno == 31,
        p.seccomp_archs@.len() == 3,
        p.seccomp_archs@[0] == SeccompArch::X8664,
        p.seccomp_archs@[1] == SeccompArch::X86,
        p.seccomp_archs@[2] == SeccompArch::X32,
        p.default_path_env@ == "/bin"@,
        p.workspace_mount@ == "/box"@,
{
    let mut unshared_namespaces: Vec<NamespaceKind> = Vec::new();
    unshared_namespaces.push(NamespaceKind::Cgroup);
    unshared_namespaces.push(NamespaceKind::Ipc);
    unshared_namespaces.push(NamespaceKind::Uts);
    unshared_namespaces.push(NamespaceKind::Network);

    let mut denied_syscalls: Vec<String> = Vec::new();
    denied_syscalls.push(String::from_str("mount"));
    denied_syscalls.push(String::from_str("umount"));
    denied_syscalls.push(String::from_str("poweroff"));
    denied_syscalls.push(String::from_str("reboot"));
    denied_syscalls.push(String::from_str("socket"));
    denied_syscalls.push(String::from_str("bind"));
    denied_syscalls.push(String::from_str("connect"));
    denied_syscalls.push(String::from_str("listen"));
    denied_syscalls.push(String::from_str("sendto"));
    denied_syscalls.push(String::from_str("recvfrom"));

    let mut seccomp_archs: Vec<SeccompArch> = Vec::new();
    seccomp_archs.push(SeccompArch::X8664);
    seccomp_archs.push(SeccompArch::X86);
    seccomp_archs.push(SeccompArch::X32);

    SandboxProfile {
        rootfs_source: String::from_str("/"),
        unshared_namespaces,
        denied_syscalls,
        denied_errno: sigsys_signal(),
        seccomp_archs,
        default_path_env: String::from_str("/bin"),
        workspace_mount: String::from_str("/box"),
    }
}

} // verus!
