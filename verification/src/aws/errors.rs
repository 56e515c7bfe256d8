//! Failures of cloud operations, each tagged with the operation that failed.

use crate::text::join2;
use vstd::prelude::*;

verus! {

/// The operations that the reconciler asks of the cloud provider.
#[derive(Debug, Clone, Copy, PartialEq, Eq, Structural)]
pub enum Operation {
    CreateVpc,
    DeleteVpc,
    DescribeVpcs,
    CreateSubnet,
    DeleteSubnet,
    DescribeSubnets,
    ModifySubnetAttribute,
    CreateSecurityGroup,
    DeleteSecurityGroup,
    DescribeSecurityGroups,
    CreateInternetGateway,
    DeleteInternetGateway,
    DescribeInternetGateways,
    AuthorizeSecurityGroupIngress,
    AuthorizeSecurityGroupEgress,
    ImportSSHKey,
    DeleteSSHKey,
    DescribeSSHKey,
    CreateInstances,
    TerminateInstances,
    DescribeInstances,
    Unexpected,
}

/// A failed cloud operation, with what the provider said about it.
#[derive(Debug, Clone, PartialEq, Eq)]
pub enum Ec2Error {
    // VPC
    CreateVpc(String),
    DeleteVpc(String),
    DescribeVpcs(String),
    // Subnet
    CreateSubnet(String),
    DeleteSubnet(String),
    DescribeSubnets(String),
    ModifySubnetAttribute(String),
    // Security group
    CreateSecurityGroup(String),
    DeleteSecurityGroup(String),
    DescribeSecurityGroups(String),
    // Internet gateway
    CreateInternetGateway(String),
    DeleteInternetGateway(String),
    DescribeInternetGateways(String),
    AuthorizeSecurityGroupIngress(String),
    AuthorizeSecurityGroupEgress(String),
    // SSH key
    ImportSSHKey(String),
    DeleteSSHKey(String),
    DescribeSSHKey(String),
    // Instances
    CreateInstances(String),
    TerminateInstances(String),
    DescribeInstances(String),
    /// An answer that fits no request, or a resource that should exist and does not.
    Unexpected(String),
}

/// An error is modelled by the operation that failed and the detail text.
impl View for Ec2Error {
    type V = (Operation, Seq<char>);

    open spec fn view(&self) -> (Operation, Seq<char>) {
        match self {
            Ec2Error::CreateVpc(d) => (Operation::CreateVpc, d@),
            Ec2Error::DeleteVpc(d) => (Operation::DeleteVpc, d@),
            Ec2Error::DescribeVpcs(d) => (Operation::DescribeVpcs, d@),
            Ec2Error::CreateSubnet(d) => (Operation::CreateSubnet, d@),
            Ec2Error::DeleteSubnet(d) => (Operation::DeleteSubnet, d@),
            Ec2Error::DescribeSubnets(d) => (Operation::DescribeSubnets, d@),
            Ec2Error::ModifySubnetAttribute(d) => (Operation::ModifySubnetAttribute, d@),
            Ec2Error::CreateSecurityGroup(d) => (Operation::CreateSecurityGroup, d@),
            Ec2Error::DeleteSecurityGroup(d) => (Operation::DeleteSecurityGroup, d@),
            Ec2Error::DescribeSecurityGroups(d) => (Operation::DescribeSecurityGroups, d@),
            Ec2Error::CreateInternetGateway(d) => (Operation::CreateInternetGateway, d@),
            Ec2Error::DeleteInternetGateway(d) => (Operation::DeleteInternetGateway, d@),
            Ec2Error::DescribeInternetGateways(d) => (Operation::DescribeInternetGateways, d@),
            Ec2Error::AuthorizeSecurityGroupIngress(d) => (
                Operation::AuthorizeSecurityGroupIngress,
                d@,
            ),
            Ec2Error::AuthorizeSecurityGroupEgress(d) => (
                Operation::AuthorizeSecurityGroupEgress,
                d@,
            ),
            Ec2Error::ImportSSHKey(d) => (Operation::ImportSSHKey, d@),
            Ec2Error::DeleteSSHKey(d) => (Operation::DeleteSSHKey, d@),
            Ec2Error::DescribeSSHKey(d) => (Operation::DescribeSSHKey, d@),
            Ec2Error::CreateInstances(d) => (Operation::CreateInstances, d@),
            Ec2Error::TerminateInstances(d) => (Operation::TerminateInstances, d@),
            Ec2Error::DescribeInstances(d) => (Operation::DescribeInstances, d@),
            Ec2Error::Unexpected(d) => (Operation::Unexpected, d@),
        }
    }
}

/// The words that introduce the detail of a failed operation.
pub open spec fn headline(operation: Operation) -> Seq<char> {
    match operation {
        Operation::CreateVpc => "Failed to create vpc: "@,
        Operation::DeleteVpc => "Failed to delete vpc: "@,
        Operation::DescribeVpcs => "Failed to describe vpcs: "@,
        Operation::CreateSubnet => "Failed to create subnet: "@,
        Operation::DeleteSubnet => "Failed to delete subnet: "@,
        Operation::DescribeSubnets => "Failed to describe subnets: "@,
        Operation::ModifySubnetAttribute => "Failed to modify subnet: "@,
        Operation::CreateSecurityGroup => "Failed to create security group: "@,
        Operation::DeleteSecurityGroup => "Failed to delete security group: "@,
        Operation::DescribeSecurityGroups => "Failed to describe security groups: "@,
        Operation::AuthorizeSecurityGroupIngress => "Failed to authorize ingress: "@,
        Operation::AuthorizeSecurityGroupEgress => "Failed to authorize egress: "@,
        Operation::CreateInternetGateway => "Failed to create internet gateway: "@,
        Operation::DeleteInternetGateway => "Failed to delete internet gateway: "@,
        Operation::DescribeInternetGateways => "Failed to describe internet gateways: "@,
        Operation::ImportSSHKey => "Failed to import SSH key: "@,
        Operation::DeleteSSHKey => "Failed to delete SSH key: "@,
        Operation::DescribeSSHKey => "Failed to describe SSH key: "@,
        Operation::CreateInstances => "Failed to create instance: "@,
        Operation::TerminateInstances => "Failed to terminate instance: "@,
        Operation::DescribeInstances => "Failed to describe instances: "@,
        Operation::Unexpected => "Unexpected error: "@,
    }
}

impl Ec2Error {
    /// The failure of `operation` with the given detail.
    pub fn new(operation: Operation, detail: String) -> (error: Ec2Error)
        ensures
            error@ == (operation, detail@),
    {
        match operation {
            Operation::CreateVpc => Ec2Error::CreateVpc(detail),
            Operation::DeleteVpc => Ec2Error::DeleteVpc(detail),
            Operation::DescribeVpcs => Ec2Error::DescribeVpcs(detail),
            Operation::CreateSubnet => Ec2Error::CreateSubnet(detail),
            Operation::DeleteSubnet => Ec2Error::DeleteSubnet(detail),
            Operation::DescribeSubnets => Ec2Error::DescribeSubnets(detail),
            Operation::ModifySubnetAttribute => Ec2Error::ModifySubnetAttribute(detail),
            Operation::CreateSecurityGroup => Ec2Error::CreateSecurityGroup(detail),
            Operation::DeleteSecurityGroup => Ec2Error::DeleteSecurityGroup(detail),
            Operation::DescribeSecurityGroups => Ec2Error::DescribeSecurityGroups(detail),
            Operation::CreateInternetGateway => Ec2Error::CreateInternetGateway(detail),
            Operation::DeleteInternetGateway => Ec2Error::DeleteInternetGateway(detail),
            Operation::DescribeInternetGateways => Ec2Error::DescribeInternetGateways(detail),
            Operation::AuthorizeSecurityGroupIngress => Ec2Error::AuthorizeSecurityGroupIngress(
                detail,
            ),
            Operation::AuthorizeSecurityGroupEgress => Ec2Error::AuthorizeSecurityGroupEgress(
                detail,
            ),
            Operation::ImportSSHKey => Ec2Error::ImportSSHKey(detail),
            Operation::DeleteSSHKey => Ec2Error::DeleteSSHKey(detail),
            Operation::DescribeSSHKey => Ec2Error::DescribeSSHKey(detail),
            Operation::CreateInstances => Ec2Error::CreateInstances(detail),
            Operation::TerminateInstances => Ec2Error::TerminateInstances(detail),
            Operation::DescribeInstances => Ec2Error::DescribeInstances(detail),
            Operation::Unexpected => Ec2Error::Unexpected(detail),
        }
    }

    /// The operation that failed.
    pub fn operation(&self) -> (operation: Operation)
        ensures
            operation == self@.0,
    {
        match self {
            Ec2Error::CreateVpc(_) => Operation::CreateVpc,
            Ec2Error::DeleteVpc(_) => Operation::DeleteVpc,
            Ec2Error::DescribeVpcs(_) => Operation::DescribeVpcs,
            Ec2Error::CreateSubnet(_) => Operation::CreateSubnet,
            Ec2Error::DeleteSubnet(_) => Operation::DeleteSubnet,
            Ec2Error::DescribeSubnets(_) => Operation::DescribeSubnets,
            Ec2Error::ModifySubnetAttribute(_) => Operation::ModifySubnetAttribute,
            Ec2Error::CreateSecurityGroup(_) => Operation::CreateSecurityGroup,
            Ec2Error::DeleteSecurityGroup(_) => Operation::DeleteSecurityGroup,
            Ec2Error::DescribeSecurityGroups(_) => Operation::DescribeSecurityGroups,
            Ec2Error::CreateInternetGateway(_) => Operation::CreateInternetGateway,
            Ec2Error::DeleteInternetGateway(_) => Operation::DeleteInternetGateway,
            Ec2Error::DescribeInternetGateways(_) => Operation::DescribeInternetGateways,
            Ec2Error::AuthorizeSecurityGroupIngress(_) => Operation::AuthorizeSecurityGroupIngress,
            Ec2Error::AuthorizeSecurityGroupEgress(_) => Operation::AuthorizeSecurityGroupEgress,
            Ec2Error::ImportSSHKey(_) => Operation::ImportSSHKey,
            Ec2Error::DeleteSSHKey(_) => Operation::DeleteSSHKey,
            Ec2Error::DescribeSSHKey(_) => Operation::DescribeSSHKey,
            Ec2Error::CreateInstances(_) => Operation::CreateInstances,
            Ec2Error::TerminateInstances(_) => Operation::TerminateInstances,
            Ec2Error::DescribeInstances(_) => Operation::DescribeInstances,
            Ec2Error::Unexpected(_) => Operation::Unexpected,
        }
    }

    /// What the provider said about the failure.
    pub fn detail(&self) -> (detail: &str)
        ensures
            detail@ == self@.1,
    {
        match self {
            Ec2Error::CreateVpc(d) => d.as_str(),
            Ec2Error::DeleteVpc(d) => d.as_str(),
            Ec2Error::DescribeVpcs(d) => d.as_str(),
            Ec2Error::CreateSubnet(d) => d.as_str(),
            Ec2Error::DeleteSubnet(d) => d.as_str(),
            Ec2Error::DescribeSubnets(d) => d.as_str(),
            Ec2Error::ModifySubnetAttribute(d) => d.as_str(),
            Ec2Error::CreateSecurityGroup(d) => d.as_str(),
            Ec2Error::DeleteSecurityGroup(d) => d.as_str(),
            Ec2Error::DescribeSecurityGroups(d) => d.as_str(),
            Ec2Error::CreateInternetGateway(d) => d.as_str(),
            Ec2Error::DeleteInternetGateway(d) => d.as_str(),
            Ec2Error::DescribeInternetGateways(d) => d.as_str(),
            Ec2Error::AuthorizeSecurityGroupIngress(d) => d.as_str(),
            Ec2Error::AuthorizeSecurityGroupEgress(d) => d.as_str(),
            Ec2Error::ImportSSHKey(d) => d.as_str(),
            Ec2Error::DeleteSSHKey(d) => d.as_str(),
            Ec2Error::DescribeSSHKey(d) => d.as_str(),
            Ec2Error::CreateInstances(d) => d.as_str(),
            Ec2Error::TerminateInstances(d) => d.as_str(),
            Ec2Error::DescribeInstances(d) => d.as_str(),
            Ec2Error::Unexpected(d) => d.as_str(),
        }
    }

    /// The line shown to the user: the operation's headline, then the detail.
    pub fn message(&self) -> (line: String)
        ensures
            line@ == headline(self@.0) + self@.1,
    {
        let head = match self.operation() {
            Operation::CreateVpc => "Failed to create vpc: ",
            Operation::DeleteVpc => "Failed to delete vpc: ",
            Operation::DescribeVpcs => "Failed to describe vpcs: ",
            Operation::CreateSubnet => "Failed to create subnet: ",
            Operation::DeleteSubnet => "Failed to delete subnet: ",
            Operation::DescribeSubnets => "Failed to describe subnets: ",
            Operation::ModifySubnetAttribute => "Failed to modify subnet: ",
            Operation::CreateSecurityGroup => "Failed to create security group: ",
            Operation::DeleteSecurityGroup => "Failed to delete security group: ",
            Operation::DescribeSecurityGroups => "Failed to describe security groups: ",
            Operation::AuthorizeSecurityGroupIngress => "Failed to authorize ingress: ",
            Operation::AuthorizeSecurityGroupEgress => "Failed to authorize egress: ",
            Operation::CreateInternetGateway => "Failed to create internet gateway: ",
            Operation::DeleteInternetGateway => "Failed to delete internet gateway: ",
            Operation::DescribeInternetGateways => "Failed to describe internet gateways: ",
            Operation::ImportSSHKey => "Failed to import SSH key: ",
            Operation::DeleteSSHKey => "Failed to delete SSH key: ",
            Operation::DescribeSSHKey => "Failed to describe SSH key: ",
            Operation::CreateInstances => "Failed to create instance: ",
            Operation::TerminateInstances => "Failed to terminate instance: ",
            Operation::DescribeInstances => "Failed to describe instances: ",
            Operation::Unexpected => "Unexpected error: ",
        };
        join2(head, self.detail())
    }
}

} // verus!
