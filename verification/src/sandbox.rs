//! The sandbox container: how it is configured, and what of its output
//! reaches the client.

use vstd::prelude::*;

verus! {

/// How the sandbox container is created.
#[derive(Debug)]
pub struct ContainerSpec {
    /// The image the container runs.
    pub image: String,
    pub attach_stdin: bool,
    pub attach_stdout: bool,
    pub attach_stderr: bool,
    /// Whether the container is removed when it stops.
    pub auto_remove: bool,
    /// Whether the container gets a terminal of its own.
    pub tty: bool,
    /// CPU quota in billionths of a CPU.
    pub nano_cpus: u64,
    pub network_mode: String,
    /// Memory limit in bytes.
    pub memory_bytes: u64,
    /// The user (`uid:gid`) the container runs as.
    pub user: String,
}

/// The sandbox configuration: the `jsh-sandbox` image with its standard
/// streams attached and no terminal, removed when it stops, half a CPU, no
/// network, 64 MiB of memory, run as user and group 10000.
pub fn container_spec() -> (spec: ContainerSpec)
    ensures
        spec.image@ == "jsh-sandbox"@,
        spec.attach_stdin,
        spec.attach_stdout,
        spec.attach_stderr,
        spec.auto_remove,
        !spec.tty,
        spec.nano_cpus == 500_000_000,
        spec.network_mode@ == "none"@,
        spec.memory_bytes == 67108864,
        spec.user@ == "10000:10000"@,
{
    let memory_bytes: u64 = 1u64 << 26u64;
    assert(1u64 << 26u64 == 67108864) by (bit_vector);
    ContainerSpec {
        image: String::from_str("jsh-sandbox"),
        attach_stdin: true,
        attach_stdout: true,
        attach_stderr: true,
        auto_remove: true,
        tty: false,
        nano_cpus: 500_000_000,
        network_mode: String::from_str("none"),
        memory_bytes,
        user: String::from_str("10000:10000"),
    }
}

/// A chunk of the container's multiplexed streams.
#[derive(Debug)]
pub enum OutputChunk {
    StdIn(Vec<u8>),
    StdOut(Vec<u8>),
    StdErr(Vec<u8>),
}

/// What of a chunk reaches the client: the bytes of standard output; a
/// chunk of any other stream gives nothing.
pub fn terminal_output(chunk: OutputChunk) -> (bytes: Vec<u8>)
    ensures
        chunk matches OutputChunk::StdOut(data) ==> bytes@ == data@,
        !(chunk is StdOut) ==> bytes@.len() == 0,
{
    match chunk {
        OutputChunk::StdOut(data) => data,
        _ => Vec::new(),
    }
}

} // verus!
