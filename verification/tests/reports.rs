use sys_info::command::command;
use sys_info::command::where_is;
use sys_info::configs::full_report_config;
use sys_info::configs::locate_binaries_config;
use sys_info::configs::minimal_report_config;
use sys_info::decode::ascii_bytes_to_string;
use sys_info::join::join_by_position;
use sys_info::report::aggregate;
use sys_info::report::assemble;
use sys_info::routes::config_for_path;
use sys_info::runner::interpret_run;
use sys_info::runner::CapturedOutput;
use sys_info::runner::RunError;
use sys_info::runner::SpawnResult;

const BANNER: &str = "Sysinfo of (free tier) Shuttle.rs. Thank you Shuttle. Love you.\n\nFormat and URL routing/handling are subject to change!\n(https://github.com/peter-kehl/sys-info.shuttleapp.rs)\n\n";

#[test]
fn decode_maps_each_byte_to_its_code_point() {
    let bytes = vec![0u8, 65, 195, 255, 10];
    let text = ascii_bytes_to_string(bytes.clone());
    assert_eq!(text.chars().count(), bytes.len());
    for (i, c) in text.chars().enumerate() {
        assert_eq!(c as u32, bytes[i] as u32);
    }
    assert_eq!(text, "\u{0}A\u{C3}\u{FF}\n");
}

#[test]
fn decode_preserves_non_ascii_bytes_without_substitution() {
    // 0xFF is not valid UTF-8; a validator would reject or replace it.
    let text = ascii_bytes_to_string(vec![0xFFu8, 0xFE]);
    assert_eq!(text, "\u{FF}\u{FE}");
}

#[test]
fn decode_of_empty_output_is_empty() {
    assert_eq!(ascii_bytes_to_string(Vec::new()), "");
}

#[test]
fn command_carries_kill_on_drop() {
    let c = command(String::from("/usr/bin/free"));
    assert!(c.kill_on_drop);
    assert_eq!(c.program, "/usr/bin/free");
    assert!(c.args.is_empty());
}

#[test]
fn where_is_runs_whereis_on_the_target() {
    let c = where_is(String::from("free"));
    assert_eq!(c.program, "whereis");
    assert_eq!(c.args, vec![String::from("free")]);
    assert!(c.kill_on_drop);
}

#[test]
fn interpret_run_decodes_stdout_on_success() {
    let out = CapturedOutput {
        success: true,
        stdout: b"Mem: 100\n".to_vec(),
        stderr: Vec::new(),
    };
    let r = interpret_run(String::from("/usr/bin/free"), SpawnResult::Completed(out));
    assert_eq!(r, Ok(String::from("Mem: 100\n")));
}

#[test]
fn interpret_run_turns_nonzero_exit_into_decoded_stderr() {
    let out = CapturedOutput {
        success: false,
        stdout: b"partial\n".to_vec(),
        stderr: b"no such mount".to_vec(),
    };
    let r = interpret_run(String::from("/bin/df"), SpawnResult::Completed(out));
    assert_eq!(r, Err(RunError::NonZeroExit(String::from("no such mount"))));
}

#[test]
fn interpret_run_names_the_program_and_os_error_on_spawn_failure() {
    let r = interpret_run(
        String::from("/usr/bin/free"),
        SpawnResult::SpawnFailed(String::from("No such file or directory (os error 2)")),
    );
    assert_eq!(
        r,
        Err(RunError::SpawnFailure {
            program: String::from("/usr/bin/free"),
            error: String::from("No such file or directory (os error 2)"),
        })
    );
}

#[test]
fn full_report_runs_free_df_mount_in_declared_order() {
    let c = full_report_config();
    assert_eq!(c.preamble, BANNER);
    assert_eq!(c.separator, "\n-----\n\n");
    assert_eq!(c.footer, "");
    assert_eq!(c.sections.len(), 3);
    assert_eq!(c.sections[0].label, "free -m:\n");
    assert_eq!(c.sections[0].command.program, "/usr/bin/free");
    assert_eq!(c.sections[0].command.args, vec![String::from("-m")]);
    assert_eq!(c.sections[1].label, "df -m /dev/shm:\n");
    assert_eq!(c.sections[1].command.program, "/bin/df");
    assert_eq!(
        c.sections[1].command.args,
        vec![String::from("-m"), String::from("/dev/shm")]
    );
    assert_eq!(c.sections[2].label, "mount:\n");
    assert_eq!(c.sections[2].command.program, "/bin/mount");
    assert!(c.sections[2].command.args.is_empty());
    for s in &c.sections {
        assert!(s.command.kill_on_drop);
    }
}

#[test]
fn minimal_report_runs_free_and_df_only() {
    let c = minimal_report_config();
    assert_eq!(c.preamble, "");
    assert_eq!(c.separator, "\n");
    assert_eq!(c.sections.len(), 2);
    assert_eq!(c.sections[0].label, "free -m:\n");
    assert_eq!(c.sections[1].label, "df -m /dev/shm:\n");
    for s in &c.sections {
        assert!(s.command.kill_on_drop);
    }
}

#[test]
fn locate_binaries_resolves_each_tool_with_whereis() {
    let c = locate_binaries_config();
    assert_eq!(c.preamble, "");
    assert_eq!(c.separator, "\n");
    assert_eq!(c.sections.len(), 3);
    let targets = ["free", "df", "mount"];
    for (s, target) in c.sections.iter().zip(targets.iter()) {
        assert_eq!(s.label, "");
        assert_eq!(s.command.program, "whereis");
        assert_eq!(s.command.args, vec![String::from(*target)]);
        assert!(s.command.kill_on_drop);
    }
}

#[test]
fn full_report_document_keeps_declared_order() {
    // The full-report scenario: mocked memory, disk and mount outputs.
    let c = full_report_config();
    let results = vec![
        Ok(String::from("Mem: 100\n")),
        Ok(String::from("/tmp 50%\n")),
        Ok(String::from("/dev/sda1 on /\n")),
    ];
    let doc = aggregate(&c, results).expect("all sections succeeded");
    let expected = format!(
        "{}free -m:\nMem: 100\n\n-----\n\ndf -m /dev/shm:\n/tmp 50%\n\n-----\n\nmount:\n/dev/sda1 on /\n",
        BANNER
    );
    assert_eq!(doc, expected);
    // Each output sits after its own label, and the labels keep the
    // declared order however the underlying processes finished.
    let mem = doc.find("Mem: 100\n").unwrap();
    let disk = doc.find("/tmp 50%\n").unwrap();
    let mount = doc.find("/dev/sda1 on /\n").unwrap();
    assert!(doc.find("free -m:\n").unwrap() < mem);
    assert!(mem < disk && disk < mount);
    assert!(doc.find("df -m /dev/shm:\n").unwrap() < disk);
    assert!(doc.find("mount:\n").unwrap() < mount);
}

#[test]
fn minimal_report_document_is_bare_labels_and_outputs() {
    let c = minimal_report_config();
    let results = vec![Ok(String::from("Mem: 5\n")), Ok(String::from("shm 1%\n"))];
    let doc = aggregate(&c, results).expect("both sections succeeded");
    assert_eq!(doc, "free -m:\nMem: 5\n\ndf -m /dev/shm:\nshm 1%\n");
}

#[test]
fn locate_binaries_document_is_newline_separated_paths() {
    let c = locate_binaries_config();
    let results = vec![
        Ok(String::from("free: /usr/bin/free")),
        Ok(String::from("df: /bin/df")),
        Ok(String::from("mount: /bin/mount")),
    ];
    let doc = aggregate(&c, results).expect("all lookups succeeded");
    assert_eq!(doc, "free: /usr/bin/free\ndf: /bin/df\nmount: /bin/mount");
}

#[test]
fn one_failed_section_fails_the_whole_aggregation() {
    // The failing-disk scenario: the disk command exits non-zero and the
    // other sections' outputs must never surface.
    let c = full_report_config();
    let results = vec![
        Ok(String::from("Mem: 100\n")),
        Err(RunError::NonZeroExit(String::from("no such mount"))),
        Ok(String::from("/dev/sda1 on /\n")),
    ];
    let r = aggregate(&c, results);
    assert_eq!(r, Err(RunError::NonZeroExit(String::from("no such mount"))));
}

#[test]
fn the_first_failure_is_the_one_reported() {
    let c = full_report_config();
    let results = vec![
        Ok(String::from("Mem: 100\n")),
        Err(RunError::NonZeroExit(String::from("first"))),
        Err(RunError::SpawnFailure {
            program: String::from("/bin/mount"),
            error: String::from("Permission denied (os error 13)"),
        }),
    ];
    let r = aggregate(&c, results);
    assert_eq!(r, Err(RunError::NonZeroExit(String::from("first"))));
}

#[test]
fn spawn_failure_fails_the_whole_aggregation() {
    let c = minimal_report_config();
    let failure = RunError::SpawnFailure {
        program: String::from("/usr/bin/free"),
        error: String::from("No such file or directory (os error 2)"),
    };
    let results = vec![Err(failure.clone()), Ok(String::from("shm 1%\n"))];
    assert_eq!(aggregate(&c, results), Err(failure));
}

#[test]
fn join_orders_results_by_declared_position_not_completion() {
    let in_order = vec![
        (0usize, Ok(String::from("a"))),
        (1usize, Ok(String::from("b"))),
        (2usize, Ok(String::from("c"))),
    ];
    let scrambled = vec![
        (2usize, Ok(String::from("c"))),
        (0usize, Ok(String::from("a"))),
        (1usize, Ok(String::from("b"))),
    ];
    let v1 = join_by_position(3, in_order).unwrap();
    let v2 = join_by_position(3, scrambled).unwrap();
    assert_eq!(v1, v2);
    assert_eq!(
        v1,
        vec![
            Ok(String::from("a")),
            Ok(String::from("b")),
            Ok(String::from("c"))
        ]
    );
}

#[test]
fn completion_order_cannot_change_the_document() {
    let c = full_report_config();
    let first = vec![
        (1usize, Ok(String::from("/tmp 50%\n"))),
        (2usize, Ok(String::from("/dev/sda1 on /\n"))),
        (0usize, Ok(String::from("Mem: 100\n"))),
    ];
    let second = vec![
        (2usize, Ok(String::from("/dev/sda1 on /\n"))),
        (0usize, Ok(String::from("Mem: 100\n"))),
        (1usize, Ok(String::from("/tmp 50%\n"))),
    ];
    let d1 = aggregate(&c, join_by_position(3, first).unwrap()).unwrap();
    let d2 = aggregate(&c, join_by_position(3, second).unwrap()).unwrap();
    assert_eq!(d1, d2);
}

#[test]
fn join_reports_nothing_when_a_position_never_completes() {
    let completed = vec![(0usize, Ok(String::from("a"))), (2usize, Ok(String::from("c")))];
    assert!(join_by_position(3, completed).is_none());
}

#[test]
fn assemble_concatenates_template_and_outputs() {
    let c = minimal_report_config();
    let outputs = vec![String::from("x\n"), String::from("y\n")];
    let doc = assemble(&c, &outputs);
    assert_eq!(doc, "free -m:\nx\n\ndf -m /dev/shm:\ny\n");
}

#[test]
fn root_path_serves_the_full_report() {
    let c = config_for_path("/").expect("the root path is routed");
    assert_eq!(c.sections.len(), 3);
    assert_eq!(c.sections[0].command.program, "/usr/bin/free");
    assert_eq!(c.separator, "\n-----\n\n");
}

#[test]
fn locate_binaries_path_serves_the_locator() {
    let c = config_for_path("/locate_binaries").expect("the locator path is routed");
    assert_eq!(c.sections.len(), 3);
    assert_eq!(c.sections[0].command.program, "whereis");
}

#[test]
fn unknown_paths_are_not_routed() {
    assert!(config_for_path("/metrics").is_none());
    assert!(config_for_path("").is_none());
    assert!(config_for_path("/locate_binaries/").is_none());
}
