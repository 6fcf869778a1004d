//! How the installer's commands are started: plainly, with the user's
//! terminal, inside the new system (`arch-chroot /mnt`), or in a directory.
use vstd::prelude::*;
use crate::plan::{owned, program, views, Invocation, InvocationView};
use crate::text::{
    join, law_split_undoes_join, lemma_split_at_separator, lemma_split_without_separator, seq_join,
    split_pieces,
};

verus! {

/// The text `bash -c` runs to start `command` with `args` inside the new
/// system mounted at `/mnt`: `arch-chroot /mnt <command> <args joined by
/// spaces>`.
pub open spec fn chroot_line(command: Seq<char>, args: Seq<Seq<char>>) -> Seq<char> {
    "arch-chroot /mnt "@ + command + " "@ + seq_join(args, " "@)
}

/// The invocation that runs `command` with `args` inside the new system.
pub open spec fn chroot_program(command: Seq<char>, args: Seq<Seq<char>>) -> InvocationView {
    program("bash"@, seq!["-c"@, chroot_line(command, args)])
}

/// The command and arguments run inside the new system come back out of
/// the chroot line, split at spaces, exactly when none of them holds a
/// space (the line is not quoted).
pub proof fn law_chroot_line_keeps_plain_arguments(command: Seq<char>, args: Seq<Seq<char>>)
    requires
        args.len() > 0,
        !command.contains(' '),
        forall|i: int| 0 <= i < args.len() ==> !(#[trigger] args[i]).contains(' '),
    ensures
        split_pieces(command + " "@ + seq_join(args, " "@), ' ') == seq![command] + args,
{
    reveal_strlit(" ");
    assert(" "@ =~= seq![' ']);
    law_split_undoes_join(args, ' ');
    lemma_split_at_separator(command, seq_join(args, seq![' ']), ' ');
    lemma_split_without_separator(command, ' ');
    assert(command + " "@ + seq_join(args, " "@) =~= command + seq![' '] + seq_join(args, seq![' ']));
}

/// Runs `command` with `args`.
pub fn exec(command: &str, args: Vec<String>) -> (r: Invocation)
    ensures
        r@ == program(command@, views(args@)),
{
    Invocation { program: command.to_string(), args, workdir: None, inherit_stdio: false }
}

/// Runs `command` with `args`, handing it the installer's standard input
/// and output.
pub fn execio(command: &str, args: Vec<String>) -> (r: Invocation)
    ensures
        r@ == (InvocationView {
            program: command@,
            args: views(args@),
            workdir: None,
            inherit_stdio: true,
        }),
{
    Invocation { program: command.to_string(), args, workdir: None, inherit_stdio: true }
}

/// Runs `command` with `args` inside the new system: `bash -c "arch-chroot
/// /mnt <command> <args joined by spaces>"`.
pub fn exec_chroot(command: &str, args: &Vec<String>) -> (r: Invocation)
    ensures
        r@ == chroot_program(command@, views(args@)),
{
    let mut line = "arch-chroot /mnt ".to_string();
    line.append(command);
    line.append(" ");
    let joined = join(args, " ");
    line.append(joined.as_str());
    let mut bash_args = owned(&["-c"]);
    let ghost before = bash_args@;
    bash_args.push(line);
    proof {
        assert(views(bash_args@) =~= views(before).push(line@));
        assert(views(bash_args@) =~= seq!["-c"@, chroot_line(command@, views(args@))]);
    }
    Invocation { program: "bash".to_string(), args: bash_args, workdir: None, inherit_stdio: false }
}

/// Runs `command` with `args` in the directory `workdir`.
pub fn exec_workdir(command: &str, workdir: &str, args: Vec<String>) -> (r: Invocation)
    ensures
        r@ == (InvocationView {
            program: command@,
            args: views(args@),
            workdir: Some(workdir@),
            inherit_stdio: false,
        }),
{
    Invocation {
        program: command.to_string(),
        args,
        workdir: Some(workdir.to_string()),
        inherit_stdio: false,
    }
}

} // verus!
