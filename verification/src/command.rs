//! Command descriptors: immutable "what to run" specifications for the
//! diagnostic tools, built by one small constructor per command family.

use vstd::prelude::*;

verus! {

/// Deadline shared by every call site that does not override it, in
/// milliseconds of wall-clock time.
pub const DEFAULT_TIMEOUT_MS: u64 = 10_000;

/// An immutable specification of a program to run and its argument list.
/// Identity is structural: two descriptors with the same program and
/// arguments describe the same command. A descriptor built for one target
/// process also records that process id.
#[derive(Debug, Clone)]
pub struct CommandDescriptor {
    pub program: String,
    pub args: Vec<String>,
    pub target: Option<u32>,
}

/// The character for a single decimal digit.
pub open spec fn digit_char(d: nat) -> char {
    if d == 0 {
        '0'
    } else if d == 1 {
        '1'
    } else if d == 2 {
        '2'
    } else if d == 3 {
        '3'
    } else if d == 4 {
        '4'
    } else if d == 5 {
        '5'
    } else if d == 6 {
        '6'
    } else if d == 7 {
        '7'
    } else if d == 8 {
        '8'
    } else {
        '9'
    }
}

/// The conventional decimal rendering of `n`: most significant digit first,
/// no sign, no leading zero except for `n == 0` itself.
pub open spec fn spec_decimal(n: nat) -> Seq<char>
    decreases n,
{
    if n < 10 {
        seq![digit_char(n)]
    } else {
        spec_decimal(n / 10).push(digit_char(n % 10))
    }
}

/// The human-readable identity of a command: the program followed by each
/// argument, separated by single spaces.
pub open spec fn spec_label(program: Seq<char>, args: Seq<Seq<char>>) -> Seq<char>
    decreases args.len(),
{
    if args.len() == 0 {
        program
    } else {
        spec_label(program, args.drop_last()) + seq![' '] + args.last()
    }
}

impl CommandDescriptor {
    /// The label under which this command's outcome is reported; it carries
    /// the full program and argument list, so distinct commands (for
    /// instance, the same tool aimed at two different process ids) have
    /// distinct labels.
    pub fn label(&self) -> (r: String)
        ensures
            r@ == spec_label(self.program@, self.args.deep_view()),
    {
        let ghost argsv = self.args.deep_view();
        let mut s = self.program.clone();
        let mut i: usize = 0;
        proof {
            assert(argsv.take(0) =~= Seq::<Seq<char>>::empty());
        }
        while i < self.args.len()
            invariant
                i <= self.args.len(),
                argsv == self.args.deep_view(),
                argsv.len() == self.args@.len(),
                s@ == spec_label(self.program@, argsv.take(i as int)),
            decreases self.args.len() - i,
        {
            s.append(" ");
            s.append(self.args[i].as_str());
            proof {
                reveal_strlit(" ");
                assert(" "@ =~= seq![' ']);
                assert(argsv.take(i + 1).drop_last() =~= argsv.take(i as int));
                assert(argsv.take(i + 1).last() == argsv[i as int]);
                assert(argsv[i as int] == self.args@[i as int]@);
            }
            i += 1;
        }
        proof {
            assert(argsv.take(argsv.len() as int) =~= argsv);
        }
        s
    }
}

fn digit_str(d: u32) -> (r: &'static str)
    requires
        d < 10,
    ensures
        r@ =~= seq![digit_char(d as nat)],
{
    proof {
        reveal_strlit("0");
        reveal_strlit("1");
        reveal_strlit("2");
        reveal_strlit("3");
        reveal_strlit("4");
        reveal_strlit("5");
        reveal_strlit("6");
        reveal_strlit("7");
        reveal_strlit("8");
        reveal_strlit("9");
    }
    if d == 0 {
        "0"
    } else if d == 1 {
        "1"
    } else if d == 2 {
        "2"
    } else if d == 3 {
        "3"
    } else if d == 4 {
        "4"
    } else if d == 5 {
        "5"
    } else if d == 6 {
        "6"
    } else if d == 7 {
        "7"
    } else if d == 8 {
        "8"
    } else {
        "9"
    }
}

/// Renders a process id (or any counter) as its decimal text, with no
/// ambiguity for any value.
pub fn decimal_string(n: u32) -> (r: String)
    ensures
        r@ == spec_decimal(n as nat),
    decreases n,
{
    if n < 10 {
        let s = digit_str(n);
        s.to_owned()
    } else {
        let mut s = decimal_string(n / 10);
        let d = digit_str(n % 10);
        s.append(d);
        proof {
            assert(spec_decimal((n / 10) as nat).push(digit_char((n % 10) as nat)) =~= spec_decimal(
                (n / 10) as nat,
            ) + seq![digit_char((n % 10) as nat)]);
        }
        s
    }
}

/// A descriptor for one fixed tool invocation: the given program run with
/// the given arguments, aimed at no particular process.
pub open spec fn is_fixed_command(
    d: CommandDescriptor,
    program: Seq<char>,
    args: Seq<Seq<char>>,
) -> bool {
    &&& d.program@ == program
    &&& d.args.deep_view() == args
    &&& d.target is None
}

/// A descriptor for a per-process tool invocation: the given program run
/// with the given arguments, recorded as aimed at `pid`.
pub open spec fn is_process_command(
    d: CommandDescriptor,
    program: Seq<char>,
    args: Seq<Seq<char>>,
    pid: u32,
) -> bool {
    &&& d.program@ == program
    &&& d.args.deep_view() == args
    &&& d.target == Some(pid)
}

fn fixed_command_1(program: &str, arg0: &str) -> (r: CommandDescriptor)
    ensures
        is_fixed_command(r, program@, seq![arg0@]),
{
    let mut args: Vec<String> = Vec::new();
    args.push(arg0.to_owned());
    let r = CommandDescriptor { program: program.to_owned(), args, target: None };
    proof {
        assert(r.args.deep_view() =~= seq![arg0@]);
    }
    r
}

fn fixed_command_2(program: &str, arg0: &str, arg1: &str) -> (r: CommandDescriptor)
    ensures
        is_fixed_command(r, program@, seq![arg0@, arg1@]),
{
    let mut args: Vec<String> = Vec::new();
    args.push(arg0.to_owned());
    args.push(arg1.to_owned());
    let r = CommandDescriptor { program: program.to_owned(), args, target: None };
    proof {
        assert(r.args.deep_view() =~= seq![arg0@, arg1@]);
    }
    r
}

/// Lists every zone configured on the sled.
pub fn zoneadm_list() -> (r: CommandDescriptor)
    ensures
        is_fixed_command(r, "/usr/sbin/zoneadm"@, seq!["list"@, "-cip"@]),
{
    fixed_command_2("/usr/sbin/zoneadm", "list", "-cip")
}

/// Shows the IP interfaces of the system.
pub fn ipadm_show_interface() -> (r: CommandDescriptor)
    ensures
        is_fixed_command(r, "/usr/sbin/ipadm"@, seq!["show-if"@]),
{
    fixed_command_1("/usr/sbin/ipadm", "show-if")
}

/// Shows the IP addresses of the system.
pub fn ipadm_show_addr() -> (r: CommandDescriptor)
    ensures
        is_fixed_command(r, "/usr/sbin/ipadm"@, seq!["show-addr"@]),
{
    fixed_command_1("/usr/sbin/ipadm", "show-addr")
}

/// Shows the IP interface properties of the system.
pub fn ipadm_show_prop() -> (r: CommandDescriptor)
    ensures
        is_fixed_command(r, "/usr/sbin/ipadm"@, seq!["show-prop"@]),
{
    fixed_command_1("/usr/sbin/ipadm", "show-prop")
}

/// Shows the physical datalinks of the system.
pub fn dladm_show_phys() -> (r: CommandDescriptor)
    ensures
        is_fixed_command(r, "/usr/sbin/dladm"@, seq!["show-phys"@]),
{
    fixed_command_1("/usr/sbin/dladm", "show-phys")
}

/// Shows the Ethernet link state of the system.
pub fn dladm_show_ether() -> (r: CommandDescriptor)
    ensures
        is_fixed_command(r, "/usr/sbin/dladm"@, seq!["show-ether"@]),
{
    fixed_command_1("/usr/sbin/dladm", "show-ether")
}

/// Shows every datalink of the system.
pub fn dladm_show_link() -> (r: CommandDescriptor)
    ensures
        is_fixed_command(r, "/usr/sbin/dladm"@, seq!["show-link"@]),
{
    fixed_command_1("/usr/sbin/dladm", "show-link")
}

/// Shows the virtual NICs of the system.
pub fn dladm_show_vnic() -> (r: CommandDescriptor)
    ensures
        is_fixed_command(r, "/usr/sbin/dladm"@, seq!["show-vnic"@]),
{
    fixed_command_1("/usr/sbin/dladm", "show-vnic")
}

/// Shows the datalink properties of the system.
pub fn dladm_show_linkprop() -> (r: CommandDescriptor)
    ensures
        is_fixed_command(r, "/usr/sbin/dladm"@, seq!["show-linkprop"@]),
{
    fixed_command_1("/usr/sbin/dladm", "show-linkprop")
}

/// Captures the arguments and environment of the process with id `pid`;
/// the id is rendered as decimal text.
pub fn pargs_process(pid: u32) -> (r: CommandDescriptor)
    ensures
        is_process_command(r, "/usr/bin/pargs"@, seq!["-ae"@, spec_decimal(pid as nat)], pid),
{
    let mut args: Vec<String> = Vec::new();
    args.push("-ae".to_owned());
    args.push(decimal_string(pid));
    let r = CommandDescriptor { program: "/usr/bin/pargs".to_owned(), args, target: Some(pid) };
    proof {
        assert(r.args.deep_view() =~= seq!["-ae"@, spec_decimal(pid as nat)]);
    }
    r
}

/// Captures the stack of the process with id `pid`; the id is rendered as
/// decimal text.
pub fn pstack_process(pid: u32) -> (r: CommandDescriptor)
    ensures
        is_process_command(r, "/usr/bin/pstack"@, seq![spec_decimal(pid as nat)], pid),
{
    let mut args: Vec<String> = Vec::new();
    args.push(decimal_string(pid));
    let r = CommandDescriptor { program: "/usr/bin/pstack".to_owned(), args, target: Some(pid) };
    proof {
        assert(r.args.deep_view() =~= seq![spec_decimal(pid as nat)]);
    }
    r
}

/// Stands in for a per-process capture on a platform without support for
/// it: a command that merely reports the lack of support, so that the
/// fan-out still produces one explanatory result instead of none.
pub fn unsupported_platform_command() -> (r: CommandDescriptor)
    ensures
        is_fixed_command(r, "echo"@, seq!["cannot get pargs on non illumos platforms"@]),
{
    fixed_command_1("echo", "cannot get pargs on non illumos platforms")
}

/// The batch of `ipadm` commands run together when networking state is
/// collected.
pub fn ipadm_commands() -> (r: Vec<CommandDescriptor>)
    ensures
        r@.len() == 3,
        is_fixed_command(r@[0], "/usr/sbin/ipadm"@, seq!["show-if"@]),
        is_fixed_command(r@[1], "/usr/sbin/ipadm"@, seq!["show-addr"@]),
        is_fixed_command(r@[2], "/usr/sbin/ipadm"@, seq!["show-prop"@]),
{
    let mut r: Vec<CommandDescriptor> = Vec::new();
    r.push(ipadm_show_interface());
    r.push(ipadm_show_addr());
    r.push(ipadm_show_prop());
    r
}

/// The batch of `dladm` commands run together when datalink state is
/// collected.
pub fn dladm_commands() -> (r: Vec<CommandDescriptor>)
    ensures
        r@.len() == 5,
        is_fixed_command(r@[0], "/usr/sbin/dladm"@, seq!["show-phys"@]),
        is_fixed_command(r@[1], "/usr/sbin/dladm"@, seq!["show-ether"@]),
        is_fixed_command(r@[2], "/usr/sbin/dladm"@, seq!["show-link"@]),
        is_fixed_command(r@[3], "/usr/sbin/dladm"@, seq!["show-vnic"@]),
        is_fixed_command(r@[4], "/usr/sbin/dladm"@, seq!["show-linkprop"@]),
{
    let mut r: Vec<CommandDescriptor> = Vec::new();
    r.push(dladm_show_phys());
    r.push(dladm_show_ether());
    r.push(dladm_show_link());
    r.push(dladm_show_vnic());
    r.push(dladm_show_linkprop());
    r
}

/// One `pargs` capture per discovered process id: the batch has exactly
/// one descriptor per id, in the order given, each aimed at its own id.
pub fn pargs_commands(pids: &Vec<u32>) -> (r: Vec<CommandDescriptor>)
    ensures
        r@.len() == pids@.len(),
        forall|i: int|
            0 <= i < pids@.len() ==> is_process_command(
                #[trigger] r@[i],
                "/usr/bin/pargs"@,
                seq!["-ae"@, spec_decimal(pids@[i] as nat)],
                pids@[i],
            ),
{
    let mut r: Vec<CommandDescriptor> = Vec::new();
    let mut i: usize = 0;
    while i < pids.len()
        invariant
            i <= pids@.len(),
            r@.len() == i,
            forall|j: int|
                0 <= j < i ==> is_process_command(
                    #[trigger] r@[j],
                    "/usr/bin/pargs"@,
                    seq!["-ae"@, spec_decimal(pids@[j] as nat)],
                    pids@[j],
                ),
        decreases pids@.len() - i,
    {
        r.push(pargs_process(pids[i]));
        i += 1;
    }
    r
}

/// One `pstack` capture per discovered process id: the batch has exactly
/// one descriptor per id, in the order given, each aimed at its own id.
pub fn pstack_commands(pids: &Vec<u32>) -> (r: Vec<CommandDescriptor>)
    ensures
        r@.len() == pids@.len(),
        forall|i: int|
            0 <= i < pids@.len() ==> is_process_command(
                #[trigger] r@[i],
                "/usr/bin/pstack"@,
                seq![spec_decimal(pids@[i] as nat)],
                pids@[i],
            ),
{
    let mut r: Vec<CommandDescriptor> = Vec::new();
    let mut i: usize = 0;
    while i < pids.len()
        invariant
            i <= pids@.len(),
            r@.len() == i,
            forall|j: int|
                0 <= j < i ==> is_process_command(
                    #[trigger] r@[j],
                    "/usr/bin/pstack"@,
                    seq![spec_decimal(pids@[j] as nat)],
                    pids@[j],
                ),
        decreases pids@.len() - i,
    {
        r.push(pstack_process(pids[i]));
        i += 1;
    }
    r
}

} // verus!
