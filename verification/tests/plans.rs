use killabeez::actions::commands::{cmd_download, cmd_execute, cmd_plan, cmd_upload, PoolCall};
use killabeez::actions::plans::{
    parse_command, parse_commands, parse_download, parse_execute, parse_upload, ParsedAction,
    PlanFault, PlanParseError,
};

#[test]
fn test_parse_single_execute_command() {
    let mut input = "execute: echo \"take five\"\n";
    let result = parse_execute(&mut input).unwrap();
    assert_eq!(
        result,
        ParsedAction::Execute {
            command: "echo \"take five\"".to_string()
        }
    );
}

#[test]
fn test_parse_single_upload_command() {
    let mut input = "upload: myscript.sh\n";
    let result = parse_upload(&mut input).unwrap();
    assert_eq!(
        result,
        ParsedAction::Upload {
            source: "myscript.sh".to_string(),
        }
    );
}

#[test]
fn test_parse_single_download_command() {
    let mut input = "download: /tmp/all-the-output.tar.gz\n";
    let result = parse_download(&mut input).unwrap();
    assert_eq!(
        result,
        ParsedAction::Download {
            source: "/tmp/all-the-output.tar.gz".to_string(),
        }
    );
}

#[test]
fn test_parse_example_plan() {
    let mut input = r#"execute: echo "Take Five!"
upload: my_init.sh
execute: chmod 755 my_init.sh && ./my_init.sh
execute: do_stuff
download: takefive.tar.gz
"#;
    let result = parse_commands(&mut input).unwrap();
    assert_eq!(
        result,
        vec![
            ParsedAction::Execute {
                command: "echo \"Take Five!\"".to_string()
            },
            ParsedAction::Upload {
                source: "my_init.sh".to_string(),
            },
            ParsedAction::Execute {
                command: "chmod 755 my_init.sh && ./my_init.sh".to_string()
            },
            ParsedAction::Execute {
                command: "do_stuff".to_string()
            },
            ParsedAction::Download {
                source: "takefive.tar.gz".to_string()
            },
        ]
    );
}

#[test]
fn entry_leaves_the_line_feed_in_the_input() {
    let mut input = "execute: ls -l\nupload: a\n";
    let action = parse_execute(&mut input).unwrap();
    assert_eq!(
        action,
        ParsedAction::Execute {
            command: "ls -l".to_string()
        }
    );
    assert_eq!(input, "\nupload: a\n");
}

#[test]
fn entry_of_another_verb_is_refused_and_the_input_stays() {
    let mut input = "upload: a\n";
    let error = parse_execute(&mut input).unwrap_err();
    assert_eq!(
        error,
        PlanParseError {
            offset: 0,
            fault: PlanFault::UnknownVerb
        }
    );
    assert_eq!(input, "upload: a\n");
}

#[test]
fn command_is_read_by_its_verb() {
    let mut input = "download: out.tar\n";
    assert_eq!(
        parse_command(&mut input).unwrap(),
        ParsedAction::Download {
            source: "out.tar".to_string()
        }
    );
    assert_eq!(input, "\n");

    let mut input = "remove: out.tar\n";
    assert_eq!(
        parse_command(&mut input).unwrap_err().fault,
        PlanFault::UnknownVerb
    );
    assert_eq!(input, "remove: out.tar\n");
}

#[test]
fn spaces_after_the_colon_belong_to_no_argument() {
    let mut input = "execute: \t  echo  hi  \n";
    assert_eq!(
        parse_execute(&mut input).unwrap(),
        ParsedAction::Execute {
            command: "echo  hi  ".to_string()
        }
    );
}

#[test]
fn a_space_is_needed_after_the_colon() {
    let mut input = "execute:ls\n";
    assert_eq!(
        parse_execute(&mut input).unwrap_err(),
        PlanParseError {
            offset: 0,
            fault: PlanFault::MissingSpace
        }
    );
}

#[test]
fn an_argument_is_needed() {
    let mut input = "upload:   \n";
    assert_eq!(
        parse_upload(&mut input).unwrap_err(),
        PlanParseError {
            offset: 0,
            fault: PlanFault::MissingArgument
        }
    );
    let mut input = "upload: ";
    assert_eq!(
        parse_upload(&mut input).unwrap_err().fault,
        PlanFault::MissingArgument
    );
}

#[test]
fn a_plan_uses_its_input_up() {
    let mut input = "execute: a\nexecute: b\n";
    assert_eq!(parse_commands(&mut input).unwrap().len(), 2);
    assert_eq!(input, "");
}

#[test]
fn empty_lines_and_spaces_between_entries_are_passed_over() {
    let mut input = "execute: a\n\n  \t\r\n\nupload: b\n   \n\n";
    assert_eq!(
        parse_commands(&mut input).unwrap(),
        vec![
            ParsedAction::Execute {
                command: "a".to_string()
            },
            ParsedAction::Upload {
                source: "b".to_string()
            },
        ]
    );
}

#[test]
fn a_carriage_return_before_the_line_feed_stays_in_the_argument() {
    let mut input = "execute: a\r\n";
    assert_eq!(
        parse_commands(&mut input).unwrap(),
        vec![ParsedAction::Execute {
            command: "a\r".to_string()
        }]
    );
}

#[test]
fn an_empty_plan_is_a_fault() {
    let mut input = "";
    assert_eq!(
        parse_commands(&mut input).unwrap_err(),
        PlanParseError {
            offset: 0,
            fault: PlanFault::UnknownVerb
        }
    );
    let mut input = "\nexecute: a\n";
    assert_eq!(
        parse_commands(&mut input).unwrap_err(),
        PlanParseError {
            offset: 0,
            fault: PlanFault::UnknownVerb
        }
    );
}

#[test]
fn a_fault_is_reported_with_its_place_and_the_input_stays() {
    let text = "execute: a\nrun: b\nupload: c\n";
    let mut input = text;
    assert_eq!(
        parse_commands(&mut input).unwrap_err(),
        PlanParseError {
            offset: 11,
            fault: PlanFault::UnknownVerb
        }
    );
    assert_eq!(input, text);

    let mut input = "execute: a\nupload:b\n";
    assert_eq!(
        parse_commands(&mut input).unwrap_err(),
        PlanParseError {
            offset: 11,
            fault: PlanFault::MissingSpace
        }
    );

    let mut input = "execute: a\ndownload: \n";
    assert_eq!(
        parse_commands(&mut input).unwrap_err(),
        PlanParseError {
            offset: 11,
            fault: PlanFault::MissingArgument
        }
    );
}

#[test]
fn the_last_line_needs_its_line_feed() {
    let mut input = "execute: a\nupload: b";
    assert_eq!(
        parse_commands(&mut input).unwrap_err(),
        PlanParseError {
            offset: 20,
            fault: PlanFault::MissingLineEnd
        }
    );
}

#[test]
fn places_count_characters_not_bytes() {
    let mut input = "execute: héllo wörld\nbad\n";
    assert_eq!(
        parse_commands(&mut input).unwrap_err(),
        PlanParseError {
            offset: 21,
            fault: PlanFault::UnknownVerb
        }
    );
    let mut input = "execute: héllo wörld\nupload: ü\n";
    assert_eq!(
        parse_commands(&mut input).unwrap(),
        vec![
            ParsedAction::Execute {
                command: "héllo wörld".to_string()
            },
            ParsedAction::Upload {
                source: "ü".to_string()
            },
        ]
    );
}

#[test]
fn faults_are_put_in_words() {
    let error = PlanParseError {
        offset: 11,
        fault: PlanFault::UnknownVerb,
    };
    assert_eq!(
        error.message(),
        "expected execute:, upload: or download: at character 11"
    );
    let error = PlanParseError {
        offset: 0,
        fault: PlanFault::MissingSpace,
    };
    assert_eq!(
        error.message(),
        "expected a space after the colon at character 0"
    );
    let error = PlanParseError {
        offset: 7,
        fault: PlanFault::MissingArgument,
    };
    assert_eq!(error.message(), "expected an argument at character 7");
    let error = PlanParseError {
        offset: 1234567,
        fault: PlanFault::MissingLineEnd,
    };
    assert_eq!(
        error.message(),
        "expected the end of the line at character 1234567"
    );
}

#[test]
fn plan_file_gives_one_call_per_action_in_order() {
    let plan = "execute: echo \"Take Five!\"\nupload: my_init.sh\nexecute: chmod 755 my_init.sh && ./my_init.sh\ndownload: takefive.tar.gz\n";
    let mut input = plan;
    assert_eq!(
        parse_commands(&mut input).unwrap(),
        vec![
            ParsedAction::Execute {
                command: "echo \"Take Five!\"".to_string()
            },
            ParsedAction::Upload {
                source: "my_init.sh".to_string()
            },
            ParsedAction::Execute {
                command: "chmod 755 my_init.sh && ./my_init.sh".to_string()
            },
            ParsedAction::Download {
                source: "takefive.tar.gz".to_string()
            },
        ]
    );
    let calls = cmd_plan(plan).unwrap();
    assert_eq!(
        calls,
        vec![
            PoolCall::Execute {
                command: "echo \"Take Five!\"".to_string()
            },
            PoolCall::Upload {
                source: "my_init.sh".to_string(),
                destination: "my_init.sh".to_string()
            },
            PoolCall::Execute {
                command: "chmod 755 my_init.sh && ./my_init.sh".to_string()
            },
            PoolCall::Download {
                source: "takefive.tar.gz".to_string(),
                destination: "takefive.tar.gz".to_string()
            },
            PoolCall::Finish,
        ]
    );
    let barriers = calls
        .iter()
        .filter(|c| !matches!(c, PoolCall::Finish))
        .count();
    assert_eq!(barriers, 4);
}

#[test]
fn a_plan_with_a_fault_gives_no_call() {
    assert_eq!(
        cmd_plan("execute: a\noops\n").unwrap_err(),
        PlanParseError {
            offset: 11,
            fault: PlanFault::UnknownVerb
        }
    );
}

#[test]
fn single_commands_give_their_calls() {
    assert_eq!(
        cmd_execute("echo hi"),
        vec![
            PoolCall::Execute {
                command: "echo hi".to_string()
            },
            PoolCall::Finish
        ]
    );
    assert_eq!(
        cmd_upload("local.bin"),
        vec![PoolCall::Upload {
            source: "local.bin".to_string(),
            destination: "local.bin".to_string()
        }]
    );
    assert_eq!(
        cmd_download("out.tar.gz"),
        vec![PoolCall::Download {
            source: "out.tar.gz".to_string(),
            destination: "out.tar.gz".to_string()
        }]
    );
}

#[test]
fn what_is_written_is_read() {
    let actions = vec![
        ParsedAction::Execute {
            command: "uname -a; echo 'done: yes'".to_string(),
        },
        ParsedAction::Download {
            source: "execute: not a verb here".to_string(),
        },
        ParsedAction::Upload {
            source: "a b\tc ".to_string(),
        },
        ParsedAction::Execute {
            command: "x".to_string(),
        },
    ];
    let mut text = String::new();
    for action in actions.iter() {
        let (verb, arg) = match action {
            ParsedAction::Execute { command } => ("execute:", command),
            ParsedAction::Upload { source } => ("upload:", source),
            ParsedAction::Download { source } => ("download:", source),
        };
        text.push_str(&format!("{} {}\n", verb, arg));
    }
    let mut input = text.as_str();
    assert_eq!(parse_commands(&mut input).unwrap(), actions);
    assert_eq!(input, "");
}
