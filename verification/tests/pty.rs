use jsh_sandbox::pty::{
    classify_ready, event_token, fork_role, token_fd, window_size, ForkRole, PtyFds, Readiness,
    WindowSize,
};

#[test]
fn fork_roles() {
    assert_eq!(fork_role(-1), ForkRole::Failed);
    assert_eq!(fork_role(0), ForkRole::Child);
    assert_eq!(fork_role(4242), ForkRole::Parent { child: 4242 });
    assert_eq!(fork_role(-7), ForkRole::Parent { child: -7 });
}

#[test]
fn tokens_name_descriptors() {
    for fd in [0i32, 1, 5, 1023, i32::MAX, -1, i32::MIN] {
        assert_eq!(token_fd(event_token(fd)), fd);
    }
    assert_eq!(event_token(-1), u64::MAX);
    assert_eq!(event_token(7), 7);
}

#[test]
fn readiness_classification() {
    let fds = PtyFds { signal: 5, input: 0, pty: 3 };
    assert_eq!(classify_ready(&fds, event_token(5)), Readiness::Stop);
    assert_eq!(classify_ready(&fds, event_token(0)), Readiness::ForwardInput);
    assert_eq!(classify_ready(&fds, event_token(3)), Readiness::ForwardOutput);
    assert_eq!(classify_ready(&fds, event_token(9)), Readiness::Unknown);
}

#[test]
fn signal_descriptor_is_tested_first() {
    let fds = PtyFds { signal: 4, input: 4, pty: 4 };
    assert_eq!(classify_ready(&fds, 4), Readiness::Stop);
}

#[test]
fn resize_maps_width_to_columns() {
    assert_eq!(window_size(80, 24), WindowSize { rows: 24, cols: 80, x_pixels: 0, y_pixels: 0 });
}
