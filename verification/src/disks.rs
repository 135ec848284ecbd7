//! The partitioning tools that the disk step hands over to.

use crate::gateway::{Invocation, InvocationView};
use crate::text::texts;
use vstd::prelude::*;

verus! {

/// The partitioning tool for MBR disks.
pub const FDISK: &'static str = "fdisk";

/// The partitioning tool for GPT disks.
pub const GDISK: &'static str = "gdisk";

/// The partitioning tool for either kind of disk.
pub const PARTED: &'static str = "parted";

/// An external partitioning tool.
#[derive(Clone, Copy, Debug, PartialEq, Eq, Structural)]
pub enum DiskTool {
    Fdisk,
    Gdisk,
    Parted,
}

/// The name under which a tool is shown and run.
pub open spec fn tool_name(tool: DiskTool) -> Seq<char> {
    match tool {
        DiskTool::Fdisk => FDISK@,
        DiskTool::Gdisk => GDISK@,
        DiskTool::Parted => PARTED@,
    }
}

impl DiskTool {
    /// The name under which the tool is shown and run.
    pub fn name(self) -> (name: &'static str)
        ensures
            name@ == tool_name(self),
    {
        match self {
            DiskTool::Fdisk => FDISK,
            DiskTool::Gdisk => GDISK,
            DiskTool::Parted => PARTED,
        }
    }

    /// The command that hands the terminal over to the tool: its name, and
    /// no argument.
    pub fn command(self) -> (command: Invocation)
        ensures
            command@ == (InvocationView { program: tool_name(self), args: Seq::empty() }),
    {
        let args: Vec<String> = Vec::new();
        assert(texts(args@) == Seq::<Seq<char>>::empty());
        Invocation { program: String::from_str(self.name()), args }
    }
}

/// The tools that the disk step offers, in the order shown.
pub fn disk_tools() -> (tools: Vec<DiskTool>)
    ensures
        tools@ == seq![DiskTool::Fdisk, DiskTool::Gdisk, DiskTool::Parted],
{
    let mut tools: Vec<DiskTool> = Vec::new();
    tools.push(DiskTool::Fdisk);
    tools.push(DiskTool::Gdisk);
    tools.push(DiskTool::Parted);
    tools
}

} // verus!
