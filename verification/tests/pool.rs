use killabeez::actions::commands::{load_ssh_pool, pool_is_possible};
use killabeez::aws::ec2::Bee;
use killabeez::aws::scenarios::{AWSNetwork, Swarm};
use killabeez::config::SwarmConfig;
use killabeez::ssh::client::{Auth, ClientEvent, ClientPhase, ClientStep};
use killabeez::ssh::errors::SshError;
use killabeez::ssh::io::{IOConfig, IOHandler};
use killabeez::ssh::pools::{FanOut, Fetch, FileCopy, Handler, SSHConnection, SSHPool, FAN_OUT};

fn s(text: &str) -> String {
    text.to_string()
}

fn hosts(n: usize) -> Vec<String> {
    (1..=n).map(|i| format!("10.0.0.{}", i)).collect()
}

fn key() -> Auth {
    Auth::KeyFile(s("keys/beez"), None)
}

/// Opens every session of a pool but those of the hosts that refuse.
fn open_all(pool: &mut SSHPool, refused: &[usize]) {
    for (i, conn) in pool.conns.iter_mut().enumerate() {
        let mut client = conn.client.clone();
        for event in [
            ClientEvent::Resolved { found: true },
            ClientEvent::Dialed,
            ClientEvent::KeyLoaded,
            ClientEvent::HashKnown { supported: true },
            ClientEvent::Authenticated {
                success: !refused.contains(&i),
            },
        ] {
            client = client.step(&event).0;
        }
        conn.client = client;
    }
}

fn ready_pool(n: usize, io_config: IOConfig) -> SSHPool {
    let (mut pool, _) = SSHPool::new(&hosts(n), "ubuntu", &key(), io_config);
    open_all(&mut pool, &[]);
    assert_eq!(pool.ready(), Ok(()));
    pool
}

/// Runs a fan-out to its end: operations end in the order that `pick` says,
/// and the greatest number in flight is returned with the results.
fn run_fan_out<T>(
    mut fan: FanOut<T>,
    mut pick: impl FnMut(&[usize]) -> usize,
    mut result: impl FnMut(usize) -> T,
) -> (Vec<T>, usize, Vec<usize>) {
    let mut in_flight: Vec<usize> = Vec::new();
    let mut most = 0;
    let mut started = Vec::new();
    loop {
        loop {
            let (next, slot) = fan.start_next();
            fan = next;
            match slot {
                Some(slot) => {
                    in_flight.push(slot);
                    started.push(slot);
                }
                None => break,
            }
        }
        assert_eq!(fan.in_flight(), in_flight.len());
        most = most.max(in_flight.len());
        if in_flight.is_empty() {
            break;
        }
        let slot = in_flight.remove(pick(&in_flight));
        let (next, accepted) = fan.complete(slot, result(slot));
        assert!(accepted);
        fan = next;
    }
    assert!(fan.is_finished());
    (fan.into_results().unwrap(), most, started)
}

#[test]
fn no_more_than_ten_operations_are_in_flight() {
    assert_eq!(FAN_OUT, 10);
    for n in [11, 25, 100] {
        let (results, most, started) = run_fan_out(FanOut::new(n), |_| 0, |slot| slot);
        assert_eq!(most, 10);
        assert_eq!(results, (0..n).collect::<Vec<usize>>());
        assert_eq!(started, (0..n).collect::<Vec<usize>>());
    }
}

#[test]
fn fewer_hosts_than_the_bound_are_all_in_flight() {
    let (results, most, _) = run_fan_out(FanOut::new(5), |_| 0, |slot| slot * 2);
    assert_eq!(most, 5);
    assert_eq!(results, vec![0, 2, 4, 6, 8]);
    let (results, most, _) = run_fan_out(FanOut::<u8>::new(0), |_| 0, |_| 0);
    assert_eq!(most, 0);
    assert_eq!(results, Vec::<u8>::new());
}

#[test]
fn results_come_in_the_order_of_the_hosts_however_they_end() {
    // The operation that was started last ends first.
    let (results, most, _) = run_fan_out(
        FanOut::new(25),
        |in_flight| in_flight.len() - 1,
        |slot| format!("host {}", slot),
    );
    assert_eq!(most, 10);
    assert_eq!(
        results,
        (0..25).map(|i| format!("host {}", i)).collect::<Vec<String>>()
    );
    // A pseudo-random order of ending.
    let mut seed: usize = 12345;
    let (results, most, _) = run_fan_out(
        FanOut::new(40),
        |in_flight| {
            seed = (seed * 1103515245 + 12345) % 2147483648;
            seed % in_flight.len()
        },
        |slot| slot,
    );
    assert_eq!(most, 10);
    assert_eq!(results, (0..40).collect::<Vec<usize>>());
}

#[test]
fn a_failure_stays_in_the_slot_of_its_host() {
    let (results, _, _) = run_fan_out(
        FanOut::new(12),
        |in_flight| in_flight.len() / 2,
        |slot| {
            if slot == 7 {
                Err(SshError::ConnectionError(s("reset")))
            } else {
                Ok(slot as u32)
            }
        },
    );
    for (slot, result) in results.iter().enumerate() {
        if slot == 7 {
            assert_eq!(result, &Err(SshError::ConnectionError(s("reset"))));
        } else {
            assert_eq!(result, &Ok(slot as u32));
        }
    }
}

#[test]
fn a_bound_of_its_own_is_kept() {
    let (results, most, _) = run_fan_out(FanOut::with_limit(7, 3), |_| 0, |slot| slot);
    assert_eq!(most, 3);
    assert_eq!(results.len(), 7);
    let (_, most, _) = run_fan_out(FanOut::with_limit(4, 0), |_| 0, |slot| slot);
    assert_eq!(most, 1);
}

#[test]
fn a_result_for_a_slot_that_is_not_in_flight_is_dropped() {
    let fan: FanOut<u8> = FanOut::new(3);
    assert_eq!(fan.len(), 3);
    assert!(!fan.is_finished());
    let (fan, accepted) = fan.complete(0, 9);
    assert!(!accepted);
    let (fan, slot) = fan.start_next();
    assert_eq!(slot, Some(0));
    let (fan, accepted) = fan.complete(5, 9);
    assert!(!accepted);
    let (fan, accepted) = fan.complete(1, 9);
    assert!(!accepted);
    assert_eq!(fan.in_flight(), 1);
    let (fan, accepted) = fan.complete(0, 1);
    assert!(accepted);
    let (fan, accepted) = fan.complete(0, 2);
    assert!(!accepted);
    assert_eq!(fan.in_flight(), 0);
    assert!(!fan.is_finished());
    assert_eq!(fan.into_results(), None);
}

#[test]
fn a_pool_has_one_session_per_host_in_order() {
    let (pool, steps) = SSHPool::new(
        &vec![s("10.0.0.1"), s("10.0.0.2:2222")],
        "ubuntu",
        &key(),
        IOConfig::Stream(s("kb.data"), false),
    );
    assert_eq!(pool.len(), 2);
    assert_eq!(
        steps,
        vec![
            ClientStep::Resolve {
                host: s("10.0.0.1"),
                port: 22
            },
            ClientStep::Resolve {
                host: s("10.0.0.2"),
                port: 2222
            },
        ]
    );
    assert_eq!(pool.conns[0].host, "10.0.0.1");
    assert_eq!(pool.conns[0].username, "ubuntu");
    assert_eq!(pool.conns[0].data.host_id(), "10_0_0_1");
    assert_eq!(pool.conns[0].data.local_root, "kb.data/10_0_0_1");
    assert_eq!(pool.conns[0].client.auth, key());
    assert_eq!(pool.conns[1].host, "10.0.0.2:2222");
    assert_eq!(pool.conns[1].data.host_id(), "10_0_0_2_2222");
    assert_eq!(pool.conns[1].client.port, 2222);
    assert_eq!(pool.io_config, IOConfig::Stream(s("kb.data"), false));
    match &pool.conns[0].io_handler {
        Handler::Stream(handler) => {
            assert_eq!(handler.stdout_path, "kb.data/10_0_0_1/stdout.log");
            assert_eq!(handler.stderr_path, "kb.data/10_0_0_1/stderr.log");
            assert!(!handler.verbose);
        }
        Handler::Remote(_) => panic!("the pool streams"),
    }
    assert_eq!(
        pool.ready(),
        Err(SshError::ConnectionError(s("10.0.0.1: not connected")))
    );
}

#[test]
fn a_streaming_pool_runs_commands_as_they_are() {
    let pool = ready_pool(2, IOConfig::Stream(s("kb.data"), false));
    assert_eq!(pool.execute("echo hi"), vec![s("echo hi"), s("echo hi")]);
    assert_eq!(pool.finish(), vec![Vec::<Fetch>::new(), Vec::new()]);
    let (run, command) = pool.conns[1].execute("echo hi");
    assert_eq!(command, "echo hi");
    assert_eq!(
        run.finish(),
        Err(SshError::CommandError(s("Command didn't exit properly")))
    );
    let delivery = pool.conns[0].io_handler.stdout(b"hi\n");
    let record = delivery.log.unwrap();
    assert_eq!(record.len(), "[2024-01-01 00:00:00] hi\n".len());
    assert!(record.ends_with(b" hi\n"));
    assert_eq!(record[0], b'[');
    assert_eq!(delivery.err, None);
}

#[test]
fn a_remote_pool_rewrites_commands_and_fetches_the_logs() {
    let pool = ready_pool(2, IOConfig::Remote(s("kb.data"), None, false));
    let commands = pool.execute("echo hi");
    assert_eq!(
        commands[0],
        "echo hi > >(awk '{ print strftime(\"[%Y-%m-%d %H:%M:%S] 10_0_0_1 \"), $0, \"\" }' >> ./stdout.log) 2> >(awk '{ print strftime(\"[%Y-%m-%d %H:%M:%S] 10_0_0_1\"), $0, \"\" }' >> ./stderr.log)"
    );
    assert!(commands[1].contains("] 10_0_0_2 \")"));
    let delivery = pool.conns[0].io_handler.stdout(b"hi\n");
    assert_eq!(delivery.log, None);
    assert_eq!(delivery.out, None);
    assert_eq!(delivery.err, None);
    assert_eq!(
        pool.conns[0].io_handler.artifacts(),
        vec![s("stdout.log"), s("stderr.log")]
    );
    assert_eq!(pool.conns[0].io_handler.host_id(), "10_0_0_1");
    assert_eq!(
        pool.finish(),
        vec![
            vec![
                Fetch {
                    remote_path: s("./stdout.log"),
                    local_path: s("kb.data/10_0_0_1/stdout.log")
                },
                Fetch {
                    remote_path: s("./stderr.log"),
                    local_path: s("kb.data/10_0_0_1/stderr.log")
                },
            ],
            vec![
                Fetch {
                    remote_path: s("./stdout.log"),
                    local_path: s("kb.data/10_0_0_2/stdout.log")
                },
                Fetch {
                    remote_path: s("./stderr.log"),
                    local_path: s("kb.data/10_0_0_2/stderr.log")
                },
            ],
        ]
    );
    let far = ready_pool(1, IOConfig::Remote(s("d"), Some(s("/var/log/bee")), true));
    assert_eq!(
        far.conns[0].finish(),
        vec![
            Fetch {
                remote_path: s("/var/log/bee/stdout.log"),
                local_path: s("d/10_0_0_1/stdout.log")
            },
            Fetch {
                remote_path: s("/var/log/bee/stderr.log"),
                local_path: s("d/10_0_0_1/stderr.log")
            },
        ]
    );
    assert!(far.execute("ls")[0].starts_with("ls > >(tee >(awk "));
}

#[test]
fn every_host_gets_the_same_file() {
    let pool = ready_pool(5, IOConfig::Stream(s("kb.data"), false));
    let copy = FileCopy {
        source: s("local.bin"),
        destination: s("remote.bin"),
    };
    assert_eq!(pool.upload("local.bin", "remote.bin"), vec![copy; 5]);
    let copy = FileCopy {
        source: s("out.tar"),
        destination: s("out.tar"),
    };
    assert_eq!(pool.download("out.tar", "out.tar"), vec![copy; 5]);

    // One transfer per host, each of 100000 bytes, never more than ten at once.
    let (results, most, started) =
        run_fan_out(pool.fan_out(), |_| 0, |_| Ok::<u64, SshError>(100000));
    assert_eq!(results, vec![Ok(100000); 5]);
    assert_eq!(started.len(), 5);
    assert!(most <= 10);
}

#[test]
fn a_host_that_refuses_ends_the_making_of_the_pool() {
    let (mut pool, _) = SSHPool::new(
        &hosts(3),
        "ubuntu",
        &key(),
        IOConfig::Stream(s("kb.data"), false),
    );
    open_all(&mut pool, &[1]);
    assert!(pool.conns[0].client.is_ready());
    assert_eq!(pool.conns[1].client.phase, ClientPhase::Failed);
    assert!(pool.conns[2].client.is_ready());
    assert_eq!(
        pool.ready(),
        Err(SshError::AuthenticationFailed(s(
            "10.0.0.2: Key authentication failed"
        )))
    );

    let (mut pool, _) = SSHPool::new(&hosts(4), "ubuntu", &key(), IOConfig::Stream(s("d"), false));
    open_all(&mut pool, &[2, 3]);
    assert_eq!(
        pool.ready(),
        Err(SshError::AuthenticationFailed(s(
            "10.0.0.3: Key authentication failed"
        )))
    );
}

#[test]
fn a_host_string_that_makes_no_sense_ends_the_making_of_the_pool() {
    let (mut pool, steps) = SSHPool::new(
        &vec![s("10.0.0.1"), s("10.0.0.2:ssh")],
        "ubuntu",
        &key(),
        IOConfig::Stream(s("kb.data"), false),
    );
    assert_eq!(steps[1], ClientStep::Abort);
    open_all(&mut pool, &[]);
    assert_eq!(
        pool.ready(),
        Err(SshError::AddressError(s("10.0.0.2:ssh: Invalid address")))
    );
}

#[test]
fn the_end_of_a_session_reports_the_first_failure() {
    assert_eq!(SSHConnection::finished(&vec![]), Ok(()));
    assert_eq!(SSHConnection::finished(&vec![Ok(10), Ok(0)]), Ok(()));
    assert_eq!(
        SSHConnection::finished(&vec![
            Ok(10),
            Err(SshError::IoError(s("disk full"))),
            Err(SshError::SessionError(s("gone"))),
        ]),
        Err(SshError::IoError(s("disk full")))
    );
    assert_eq!(
        SSHConnection::finished(&vec![Err(SshError::SessionError(s("gone"))), Ok(1)]),
        Err(SshError::SessionError(s("gone")))
    );
}

fn swarm(sc: &SwarmConfig, addresses: &[Option<&str>]) -> Swarm {
    Swarm {
        config: sc.clone(),
        network: AWSNetwork {
            vpc_id: s("vpc-1"),
            subnet_id: s("subnet-1"),
            security_group_id: s("sg-1"),
        },
        key_pair: s("key-1"),
        instances: addresses
            .iter()
            .enumerate()
            .map(|(i, ip)| Bee {
                id: format!("i-{}", i),
                ip: ip.map(|a| a.to_string()),
            })
            .collect(),
    }
}

fn config() -> SwarmConfig {
    SwarmConfig::read(SwarmConfig {
        tag_name: s("beez"),
        num_beez: 2,
        ssh_cidr_block: None,
        username: None,
        ami: None,
        public_key_file: Some(s("/home/me/.ssh/beez.pub")),
        key_id: None,
        vpc_id: None,
        subnet_id: None,
        security_group_id: None,
    })
    .unwrap()
}

#[test]
fn the_pool_of_a_swarm_logs_in_with_the_private_key() {
    let sc = config();
    assert_eq!(
        SSHPool::load_key(&sc),
        Some(Auth::KeyFile(s("/home/me/.ssh/beez"), None))
    );
    let swarm = swarm(&sc, &[Some("10.0.0.1"), Some("10.0.0.2")]);
    assert!(pool_is_possible(&sc, &swarm));
    let (pool, steps) = load_ssh_pool(&sc, &swarm, "kb.data", false, false);
    assert_eq!(pool.len(), 2);
    assert_eq!(steps.len(), 2);
    assert_eq!(pool.io_config, IOConfig::Stream(s("kb.data"), false));
    for (i, conn) in pool.conns.iter().enumerate() {
        assert_eq!(conn.host, format!("10.0.0.{}", i + 1));
        assert_eq!(conn.username, "ubuntu");
        assert_eq!(conn.client.username, "ubuntu");
        assert_eq!(
            conn.client.auth,
            Auth::KeyFile(s("/home/me/.ssh/beez"), None)
        );
        assert_eq!(conn.data.local_root, format!("kb.data/10_0_0_{}", i + 1));
        assert!(matches!(conn.io_handler, Handler::Stream(_)));
    }
    let (pool, _) = load_ssh_pool(&sc, &swarm, "out", true, true);
    assert_eq!(pool.io_config, IOConfig::Remote(s("out"), None, true));
    assert!(matches!(pool.conns[0].io_handler, Handler::Remote(_)));
}

#[test]
fn a_pool_needs_a_user_a_key_and_an_address_for_every_bee() {
    let sc = config();
    assert!(!pool_is_possible(&sc, &swarm(&sc, &[Some("10.0.0.1"), None])));
    assert!(pool_is_possible(&sc, &swarm(&sc, &[])));

    let mut no_user = sc.clone();
    no_user.username = None;
    assert!(!pool_is_possible(&no_user, &swarm(&sc, &[])));

    let mut private = sc.clone();
    private.public_key_file = Some(s("/home/me/.ssh/beez"));
    assert!(!pool_is_possible(&private, &swarm(&sc, &[])));

    let mut by_id = sc.clone();
    by_id.public_key_file = None;
    by_id.key_id = Some(s("key-1"));
    assert!(!pool_is_possible(&by_id, &swarm(&sc, &[])));
    assert_eq!(SSHPool::load_key(&by_id), None);
}
