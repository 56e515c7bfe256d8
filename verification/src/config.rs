//! The declared fleet: what the reconciler converges to and what the session
//! pool logs in with.

use crate::text::{chars_of, copy_opt, decimal, decimal_string, string_of, word_at};
use vstd::prelude::*;

verus! {

/// The source range allowed to reach port 22 when the configuration names none.
pub const DEFAULT_SSH_CIDR: &'static str = "0.0.0.0/0";

/// The machine image used when the configuration names none.
pub const DEFAULT_AMI: &'static str = "ami-04b4f1a9cf54c11d0";

/// The login name used when the configuration names none.
pub const DEFAULT_USERNAME: &'static str = "ubuntu";

/// The ending of a public key file's name.
pub const PUBLIC_KEY_SUFFIX: &'static str = ".pub";

/// Why a configuration is refused.
#[derive(Debug, Clone, Copy, PartialEq, Eq, Structural)]
pub enum ConfigError {
    /// `tag_name` is empty.
    EmptyTagName,
    /// `num_beez` is below zero.
    NegativeCount,
    /// Neither `public_key_file` nor `key_id` is set.
    MissingKey,
    /// Both `public_key_file` and `key_id` are set.
    AmbiguousKey,
}

impl ConfigError {
    /// The text of each refusal.
    pub open spec fn text(self) -> Seq<char> {
        match self {
            ConfigError::EmptyTagName => "swarm config must contain a non-empty tag_name"@,
            ConfigError::NegativeCount => "swarm config must not ask for a negative num_beez"@,
            ConfigError::MissingKey => "swarm config must contain a public_key_file or a key_id"@,
            ConfigError::AmbiguousKey => {
                "swarm config must contain only one of public_key_file and key_id"@
            },
        }
    }

    /// The line shown to the user.
    pub fn message(&self) -> (line: String)
        ensures
            line@ == self.text(),
    {
        match self {
            ConfigError::EmptyTagName => {
                "swarm config must contain a non-empty tag_name".to_owned()
            },
            ConfigError::NegativeCount => {
                "swarm config must not ask for a negative num_beez".to_owned()
            },
            ConfigError::MissingKey => {
                "swarm config must contain a public_key_file or a key_id".to_owned()
            },
            ConfigError::AmbiguousKey => {
                "swarm config must contain only one of public_key_file and key_id".to_owned()
            },
        }
    }
}

/// The declared fleet.
#[derive(Debug, Clone, PartialEq, Eq)]
pub struct SwarmConfig {
    /// The `Name` tag that marks every managed resource.
    pub tag_name: String,
    /// How many instances the fleet is to have.
    pub num_beez: i32,
    /// The source range allowed to reach port 22.
    pub ssh_cidr_block: Option<String>,
    /// The login name on the instances.
    pub username: Option<String>,
    /// The machine image of the instances.
    pub ami: Option<String>,
    /// The local public key file to import.
    pub public_key_file: Option<String>,
    /// A key pair that the cloud already holds.
    pub key_id: Option<String>,
    /// A network to adopt in place of creating one.
    pub vpc_id: Option<String>,
    /// A subnet to adopt in place of creating one.
    pub subnet_id: Option<String>,
    /// A security group to adopt in place of creating one.
    pub security_group_id: Option<String>,
}

/// A configuration as plain text and numbers.
pub struct SwarmConfigView {
    pub tag_name: Seq<char>,
    pub num_beez: int,
    pub ssh_cidr_block: Option<Seq<char>>,
    pub username: Option<Seq<char>>,
    pub ami: Option<Seq<char>>,
    pub public_key_file: Option<Seq<char>>,
    pub key_id: Option<Seq<char>>,
    pub vpc_id: Option<Seq<char>>,
    pub subnet_id: Option<Seq<char>>,
    pub security_group_id: Option<Seq<char>>,
}

impl View for SwarmConfig {
    type V = SwarmConfigView;

    open spec fn view(&self) -> SwarmConfigView {
        SwarmConfigView {
            tag_name: self.tag_name@,
            num_beez: self.num_beez as int,
            ssh_cidr_block: self.ssh_cidr_block.deep_view(),
            username: self.username.deep_view(),
            ami: self.ami.deep_view(),
            public_key_file: self.public_key_file.deep_view(),
            key_id: self.key_id.deep_view(),
            vpc_id: self.vpc_id.deep_view(),
            subnet_id: self.subnet_id.deep_view(),
            security_group_id: self.security_group_id.deep_view(),
        }
    }
}

/// `given`, or `fallback` where nothing is given.
pub open spec fn or_default(given: Option<Seq<char>>, fallback: Seq<char>) -> Option<Seq<char>> {
    match given {
        Some(text) => Some(text),
        None => Some(fallback),
    }
}

/// What is shown for an optional setting.
pub open spec fn or_none(given: Option<Seq<char>>) -> Seq<char> {
    match given {
        Some(text) => text,
        None => "none"@,
    }
}

impl SwarmConfigView {
    /// The first fault of a configuration, if it has one.
    pub open spec fn fault(self) -> Option<ConfigError> {
        if self.tag_name.len() == 0 {
            Some(ConfigError::EmptyTagName)
        } else if self.num_beez < 0 {
            Some(ConfigError::NegativeCount)
        } else if self.public_key_file is None && self.key_id is None {
            Some(ConfigError::MissingKey)
        } else if self.public_key_file is Some && self.key_id is Some {
            Some(ConfigError::AmbiguousKey)
        } else {
            None
        }
    }

    /// A configuration is valid when its tag is not empty, its count is not
    /// negative, and exactly one of the public key file and the key id is set.
    pub open spec fn valid(self) -> bool {
        self.fault() is None
    }

    /// The configuration with each missing optional setting filled in.
    pub open spec fn with_defaults(self) -> SwarmConfigView {
        SwarmConfigView {
            ssh_cidr_block: or_default(self.ssh_cidr_block, DEFAULT_SSH_CIDR@),
            username: or_default(self.username, DEFAULT_USERNAME@),
            ami: or_default(self.ami, DEFAULT_AMI@),
            ..self
        }
    }

    /// Whether the public key file, if there is one, is named `<private>.pub`.
    pub open spec fn key_file_is_public(self) -> bool {
        match self.public_key_file {
            Some(name) => PUBLIC_KEY_SUFFIX@.is_suffix_of(name),
            None => true,
        }
    }

    /// The private key that belongs to the public key file: its name without
    /// the ending `.pub`.
    pub open spec fn private_key_file(self) -> Option<Seq<char>> {
        match self.public_key_file {
            Some(name) => Some(name.subrange(0, name.len() - PUBLIC_KEY_SUFFIX@.len())),
            None => None,
        }
    }

    /// The report of a configuration: a title and one line per setting.
    pub open spec fn report(self) -> Seq<char> {
        "CONFIG ]---------------------------\n"@ + "Tag Name:     "@ + self.tag_name + "\n"@
            + "Num Beez:     "@ + decimal(self.num_beez) + "\n"@ + "SSH CIDR:     "@ + or_none(
            self.ssh_cidr_block,
        ) + "\n"@ + "Username:     "@ + or_none(self.username) + "\n"@ + "AMI:          "@
            + or_none(self.ami) + "\n"@ + "Pub Key File: "@ + or_none(self.public_key_file) + "\n"@
            + "Key Id:       "@ + or_none(self.key_id) + "\n"@ + "VPC Id:       "@ + or_none(
            self.vpc_id,
        ) + "\n"@ + "Subnet Id:    "@ + or_none(self.subnet_id) + "\n"@ + "Sec Group Id: "@
            + or_none(self.security_group_id)
    }
}

/// `given`, or a copy of `fallback` where nothing is given.
fn filled(given: Option<String>, fallback: &str) -> (out: Option<String>)
    ensures
        out.deep_view() == or_default(given.deep_view(), fallback@),
{
    match given {
        Some(text) => Some(text),
        None => Some(fallback.to_owned()),
    }
}

/// Appends a label, an optional setting and, if asked, a line break.
fn push_setting(out: &mut String, label: &str, given: &Option<String>, line_break: bool)
    ensures
        final(out)@ == old(out)@ + label@ + or_none(given.deep_view()) + (if line_break {
            "\n"@
        } else {
            Seq::<char>::empty()
        }),
{
    out.append(label);
    match given {
        Some(text) => out.append(text.as_str()),
        None => out.append("none"),
    }
    if line_break {
        out.append("\n");
    }
    proof {
        assert(old(out)@ + label@ + or_none(given.deep_view()) + Seq::<char>::empty() =~= old(out)@
            + label@ + or_none(given.deep_view()));
    }
}

impl SwarmConfig {
    /// Whether the configuration can be worked with.
    pub open spec fn valid(&self) -> bool {
        self@.valid()
    }

    /// Takes the settings as they were read, fills in the defaults and checks
    /// them. A setting that was given is kept as it is.
    pub fn read(raw: SwarmConfig) -> (checked: Result<SwarmConfig, ConfigError>)
        ensures
            match checked {
                Ok(sc) => raw@.fault() is None && sc@ == raw@.with_defaults() && sc.valid(),
                Err(e) => raw@.fault() == Some(e),
            },
    {
        if raw.tag_name.as_str().unicode_len() == 0 {
            return Err(ConfigError::EmptyTagName);
        }
        if raw.num_beez < 0 {
            return Err(ConfigError::NegativeCount);
        }
        if raw.public_key_file.is_none() && raw.key_id.is_none() {
            return Err(ConfigError::MissingKey);
        }
        if raw.public_key_file.is_some() && raw.key_id.is_some() {
            return Err(ConfigError::AmbiguousKey);
        }
        Ok(
            SwarmConfig {
                tag_name: raw.tag_name,
                num_beez: raw.num_beez,
                ssh_cidr_block: filled(raw.ssh_cidr_block, DEFAULT_SSH_CIDR),
                username: filled(raw.username, DEFAULT_USERNAME),
                ami: filled(raw.ami, DEFAULT_AMI),
                public_key_file: raw.public_key_file,
                key_id: raw.key_id,
                vpc_id: raw.vpc_id,
                subnet_id: raw.subnet_id,
                security_group_id: raw.security_group_id,
            },
        )
    }

    /// Tells whether the public key file, if there is one, is named
    /// `<private>.pub`, so that the private key's name can be derived from it.
    pub fn key_file_is_public(&self) -> (yes: bool)
        ensures
            yes == self@.key_file_is_public(),
    {
        match &self.public_key_file {
            Some(name) => {
                let chars = chars_of(name.as_str());
                let suffix = chars_of(PUBLIC_KEY_SUFFIX);
                if chars.len() < suffix.len() {
                    return false;
                }
                let found = word_at(&chars, chars.len() - suffix.len(), &suffix);
                found
            },
            None => true,
        }
    }

    /// The private key file that belongs to the public key file: the same name
    /// without the ending `.pub`. `None` where the configuration names no
    /// public key file.
    pub fn private_key_file(&self) -> (file: Option<String>)
        requires
            self@.key_file_is_public(),
        ensures
            file.deep_view() == self@.private_key_file(),
    {
        match &self.public_key_file {
            Some(name) => {
                let chars = chars_of(name.as_str());
                let suffix = chars_of(PUBLIC_KEY_SUFFIX);
                Some(string_of(&chars, 0, chars.len() - suffix.len()))
            },
            None => None,
        }
    }

    /// A copy of the configuration.
    pub fn duplicate(&self) -> (copy: SwarmConfig)
        ensures
            copy@ == self@,
    {
        SwarmConfig {
            tag_name: self.tag_name.clone(),
            num_beez: self.num_beez,
            ssh_cidr_block: copy_opt(&self.ssh_cidr_block),
            username: copy_opt(&self.username),
            ami: copy_opt(&self.ami),
            public_key_file: copy_opt(&self.public_key_file),
            key_id: copy_opt(&self.key_id),
            vpc_id: copy_opt(&self.vpc_id),
            subnet_id: copy_opt(&self.subnet_id),
            security_group_id: copy_opt(&self.security_group_id),
        }
    }

    /// The report of the configuration for the user: a title and one line per
    /// setting, `none` standing for a setting that is not given.
    pub fn report(&self) -> (text: String)
        ensures
            text@ == self@.report(),
    {
        let mut out = "CONFIG ]---------------------------\n".to_owned();
        out.append("Tag Name:     ");
        out.append(self.tag_name.as_str());
        out.append("\n");
        out.append("Num Beez:     ");
        let count = decimal_string(self.num_beez);
        out.append(count.as_str());
        out.append("\n");
        push_setting(&mut out, "SSH CIDR:     ", &self.ssh_cidr_block, true);
        push_setting(&mut out, "Username:     ", &self.username, true);
        push_setting(&mut out, "AMI:          ", &self.ami, true);
        push_setting(&mut out, "Pub Key File: ", &self.public_key_file, true);
        push_setting(&mut out, "Key Id:       ", &self.key_id, true);
        push_setting(&mut out, "VPC Id:       ", &self.vpc_id, true);
        push_setting(&mut out, "Subnet Id:    ", &self.subnet_id, true);
        push_setting(&mut out, "Sec Group Id: ", &self.security_group_id, false);
        out
    }
}

} // verus!
