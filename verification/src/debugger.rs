use vstd::prelude::*;

verus! {

/// A command of the single-step debugger.
#[derive(Debug, Clone, Copy, PartialEq, Eq)]
pub enum Command {
    /// `n`: execute one instruction and dump the registers.
    Step,
    /// `r`: run the program, dumping the registers after every instruction.
    Run,
    /// `q`: leave the debugger.
    Quit,
}

/// Whether a byte is ASCII white space.
pub open spec fn is_blank(byte: u8) -> bool {
    byte == 0x20 || 0x09 <= byte <= 0x0d
}

/// The length of a line without its trailing white space.
pub open spec fn trimmed_len(line: Seq<u8>) -> nat
    decreases line.len(),
{
    if line.len() > 0 && is_blank(line.last()) {
        trimmed_len(line.drop_last())
    } else {
        line.len()
    }
}

/// The command that a line of input stands for, trailing white space
/// aside: `n`, `r` or `q` by name, the last valid command for a blank line,
/// and none for anything else.
pub open spec fn command_of(line: Seq<u8>, last: Option<Command>) -> Option<Command> {
    let len = trimmed_len(line);
    if len == 0 {
        last
    } else if len == 1 && line[0] == 0x6e {
        Some(Command::Step)
    } else if len == 1 && line[0] == 0x72 {
        Some(Command::Run)
    } else if len == 1 && line[0] == 0x71 {
        Some(Command::Quit)
    } else {
        None
    }
}

fn blank(byte: u8) -> (r: bool)
    ensures
        r == is_blank(byte),
{
    byte == 0x20 || (0x09 <= byte && byte <= 0x0d)
}

/// Reads one line of operator input. `last` is the last valid command, if
/// there was one; a blank line repeats it. `None` stands for input that is
/// no command and is to be reported.
pub fn command(line: &[u8], last: Option<Command>) -> (cmd: Option<Command>)
    ensures
        cmd == command_of(line@, last),
{
    let mut end: usize = line.len();
    assert(line@.subrange(0, end as int) =~= line@);
    while end > 0 && blank(line[end - 1])
        invariant
            end <= line@.len(),
            trimmed_len(line@) == trimmed_len(line@.subrange(0, end as int)),
        decreases end,
    {
        assert(line@.subrange(0, end as int).drop_last() =~= line@.subrange(0, end - 1));
        end -= 1;
    }
    assert(trimmed_len(line@) == end);
    if end == 0 {
        last
    } else if end == 1 {
        let name: u8 = line[0];
        if name == 0x6e {
            Some(Command::Step)
        } else if name == 0x72 {
            Some(Command::Run)
        } else if name == 0x71 {
            Some(Command::Quit)
        } else {
            None
        }
    } else {
        None
    }
}

} // verus!
