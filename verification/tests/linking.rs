use xenonc::link::{link_command, link_result, linker_for, LinkCommand, LinkError, LinkOutcome, Platform};

#[test]
fn the_linker_of_each_platform() {
    assert_eq!(linker_for(Platform::Linux), "cc");
    assert_eq!(linker_for(Platform::MacOs), "cc");
    assert_eq!(linker_for(Platform::Windows), "clang");
}

#[test]
fn the_minimal_invocation() {
    assert_eq!(
        link_command(Platform::Linux, "./out.o", "./out"),
        LinkCommand {
            program: "cc".to_string(),
            args: vec!["./out.o".to_string(), "-o".to_string(), "./out".to_string()]
        }
    );
    assert_eq!(link_command(Platform::Windows, "a.o", "a").program, "clang");
}

#[test]
fn three_outcomes() {
    assert_eq!(link_result(Platform::Linux, &LinkOutcome::Success), Ok(()));
    assert_eq!(
        link_result(Platform::Linux, &LinkOutcome::Failed("exit status: 1".to_string())),
        Err(LinkError::Failed { linker: "cc".to_string(), status: "exit status: 1".to_string() })
    );
    assert_eq!(
        link_result(Platform::Windows, &LinkOutcome::NotFound),
        Err(LinkError::NotFound { linker: "clang".to_string() })
    );
}

#[test]
fn link_error_texts() {
    let failed = LinkError::Failed { linker: "cc".to_string(), status: "exit status: 1".to_string() };
    assert_eq!(failed.message(), "Linker 'cc' failed with status: exit status: 1");
    let missing = LinkError::NotFound { linker: "cc".to_string() };
    assert_eq!(missing.message(), "Linker 'cc' not found. Please install a C toolchain (Clang/GCC).");
}
