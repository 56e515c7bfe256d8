use killabeez::config::{
    ConfigError, SwarmConfig, DEFAULT_AMI, DEFAULT_SSH_CIDR, DEFAULT_USERNAME,
};
use killabeez::text::{decimal_string, decimal_u64, join2, join3};

fn bare(tag: &str, count: i32) -> SwarmConfig {
    SwarmConfig {
        tag_name: tag.to_string(),
        num_beez: count,
        ssh_cidr_block: None,
        username: None,
        ami: None,
        public_key_file: None,
        key_id: None,
        vpc_id: None,
        subnet_id: None,
        security_group_id: None,
    }
}

#[test]
fn defaults_are_filled_in() {
    let mut raw = bare("beez", 3);
    raw.public_key_file = Some("id_ed25519.pub".to_string());
    let sc = SwarmConfig::read(raw).unwrap();
    assert_eq!(sc.tag_name, "beez");
    assert_eq!(sc.num_beez, 3);
    assert_eq!(sc.ssh_cidr_block.as_deref(), Some("0.0.0.0/0"));
    assert_eq!(sc.username.as_deref(), Some("ubuntu"));
    assert_eq!(sc.ami.as_deref(), Some("ami-04b4f1a9cf54c11d0"));
    assert_eq!(sc.public_key_file.as_deref(), Some("id_ed25519.pub"));
    assert_eq!(sc.key_id, None);
    assert_eq!(sc.vpc_id, None);
    assert_eq!(DEFAULT_SSH_CIDR, "0.0.0.0/0");
    assert_eq!(DEFAULT_USERNAME, "ubuntu");
    assert_eq!(DEFAULT_AMI, "ami-04b4f1a9cf54c11d0");
}

#[test]
fn given_settings_are_kept() {
    let mut raw = bare("beez", 0);
    raw.key_id = Some("key-1".to_string());
    raw.ssh_cidr_block = Some("10.1.0.0/16".to_string());
    raw.username = Some("admin".to_string());
    raw.ami = Some("ami-1".to_string());
    raw.vpc_id = Some("vpc-1".to_string());
    raw.subnet_id = Some("subnet-1".to_string());
    raw.security_group_id = Some("sg-1".to_string());
    let sc = SwarmConfig::read(raw.clone()).unwrap();
    assert_eq!(sc, raw);
}

#[test]
fn a_configuration_without_a_tag_is_refused() {
    let mut raw = bare("", 3);
    raw.key_id = Some("key-1".to_string());
    assert_eq!(SwarmConfig::read(raw), Err(ConfigError::EmptyTagName));
}

#[test]
fn a_negative_count_is_refused() {
    let mut raw = bare("beez", -1);
    raw.key_id = Some("key-1".to_string());
    assert_eq!(SwarmConfig::read(raw), Err(ConfigError::NegativeCount));
}

#[test]
fn exactly_one_key_is_needed() {
    assert_eq!(
        SwarmConfig::read(bare("beez", 3)),
        Err(ConfigError::MissingKey)
    );
    let mut raw = bare("beez", 3);
    raw.key_id = Some("key-1".to_string());
    raw.public_key_file = Some("id.pub".to_string());
    assert_eq!(SwarmConfig::read(raw), Err(ConfigError::AmbiguousKey));
}

#[test]
fn the_first_fault_is_reported() {
    assert_eq!(
        SwarmConfig::read(bare("", -5)),
        Err(ConfigError::EmptyTagName)
    );
    assert_eq!(
        SwarmConfig::read(bare("beez", -5)),
        Err(ConfigError::NegativeCount)
    );
}

#[test]
fn refusals_are_put_in_words() {
    assert_eq!(
        ConfigError::MissingKey.message(),
        "swarm config must contain a public_key_file or a key_id"
    );
    assert_eq!(
        ConfigError::AmbiguousKey.message(),
        "swarm config must contain only one of public_key_file and key_id"
    );
    assert_eq!(
        ConfigError::EmptyTagName.message(),
        "swarm config must contain a non-empty tag_name"
    );
    assert_eq!(
        ConfigError::NegativeCount.message(),
        "swarm config must not ask for a negative num_beez"
    );
}

#[test]
fn the_private_key_is_the_public_key_file_without_its_ending() {
    let mut sc = bare("beez", 1);
    sc.public_key_file = Some("/home/me/.ssh/id_ed25519.pub".to_string());
    assert!(sc.key_file_is_public());
    assert_eq!(
        sc.private_key_file(),
        Some("/home/me/.ssh/id_ed25519".to_string())
    );

    sc.public_key_file = Some(".pub".to_string());
    assert!(sc.key_file_is_public());
    assert_eq!(sc.private_key_file(), Some("".to_string()));
}

#[test]
fn no_public_key_file_no_private_key() {
    let mut sc = bare("beez", 1);
    sc.key_id = Some("key-1".to_string());
    assert!(sc.key_file_is_public());
    assert_eq!(sc.private_key_file(), None);
}

#[test]
fn a_key_file_that_is_not_public_is_told() {
    let mut sc = bare("beez", 1);
    sc.public_key_file = Some("id_ed25519".to_string());
    assert!(!sc.key_file_is_public());
    sc.public_key_file = Some("pub".to_string());
    assert!(!sc.key_file_is_public());
    sc.public_key_file = Some("id.pub.bak".to_string());
    assert!(!sc.key_file_is_public());
}

#[test]
fn a_copy_is_equal() {
    let mut sc = bare("beez", 7);
    sc.public_key_file = Some("k.pub".to_string());
    sc.vpc_id = Some("vpc-1".to_string());
    assert_eq!(sc.duplicate(), sc);
}

#[test]
fn the_report_has_one_line_per_setting() {
    let mut raw = bare("beez", 12);
    raw.public_key_file = Some("k.pub".to_string());
    raw.vpc_id = Some("vpc-1".to_string());
    let sc = SwarmConfig::read(raw).unwrap();
    assert_eq!(
        sc.report(),
        "CONFIG ]---------------------------\n\
         Tag Name:     beez\n\
         Num Beez:     12\n\
         SSH CIDR:     0.0.0.0/0\n\
         Username:     ubuntu\n\
         AMI:          ami-04b4f1a9cf54c11d0\n\
         Pub Key File: k.pub\n\
         Key Id:       none\n\
         VPC Id:       vpc-1\n\
         Subnet Id:    none\n\
         Sec Group Id: none"
    );
}

#[test]
fn numbers_are_written_in_decimal() {
    assert_eq!(decimal_string(0), "0");
    assert_eq!(decimal_string(7), "7");
    assert_eq!(decimal_string(10), "10");
    assert_eq!(decimal_string(12345), "12345");
    assert_eq!(decimal_string(-1), "-1");
    assert_eq!(decimal_string(-980), "-980");
    assert_eq!(decimal_string(i32::MAX), "2147483647");
    assert_eq!(decimal_string(i32::MIN), "-2147483648");
    assert_eq!(decimal_u64(0), "0");
    assert_eq!(decimal_u64(100000), "100000");
    assert_eq!(decimal_u64(u64::MAX), "18446744073709551615");
}

#[test]
fn texts_are_joined() {
    assert_eq!(join2("ab", "cd"), "abcd");
    assert_eq!(join2("", ""), "");
    assert_eq!(join3("a", "/", "b"), "a/b");
    assert_eq!(join3("", "", ""), "");
}
