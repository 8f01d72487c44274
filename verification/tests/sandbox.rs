use jsh_sandbox::config::get_command;
use jsh_sandbox::sandbox::{container_spec, terminal_output, OutputChunk};
use jsh_sandbox::uniqueptr::UniquePtr;

#[test]
fn command_is_java_shell() {
    let cmd = get_command();
    assert_eq!(cmd.program, "/usr/local/openjdk-11/bin/java");
    assert_eq!(cmd.args, vec!["-jar".to_string(), "/tmp/jsh.jar".to_string()]);
}

#[test]
fn container_configuration() {
    let spec = container_spec();
    assert_eq!(spec.image, "jsh-sandbox");
    assert!(spec.attach_stdin && spec.attach_stdout && spec.attach_stderr);
    assert!(spec.auto_remove);
    assert!(!spec.tty);
    assert_eq!(spec.nano_cpus, 500_000_000);
    assert_eq!(spec.network_mode, "none");
    assert_eq!(spec.memory_bytes, 1u64 << 26);
    assert_eq!(spec.user, "10000:10000");
}

#[test]
fn only_stdout_reaches_client() {
    assert_eq!(terminal_output(OutputChunk::StdOut(vec![1, 2])), vec![1, 2]);
    assert_eq!(terminal_output(OutputChunk::StdErr(vec![3])), Vec::<u8>::new());
    assert_eq!(terminal_output(OutputChunk::StdIn(vec![4])), Vec::<u8>::new());
}

#[test]
fn unique_ptr_holds_value() {
    let p = UniquePtr::new(41u32);
    assert_eq!(*p.deref(), 41);
    let mut q = UniquePtr::from_box(Box::new(String::from("abc")));
    q.deref_mut().push('d');
    assert_eq!(q.deref(), "abcd");
}
