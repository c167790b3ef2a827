use vstd::prelude::*;

verus! {

/// A command line with `sudo` in front when elevation is available.
pub open spec fn elevated(parts: Seq<Seq<char>>, sudo_available: bool) -> Seq<Seq<char>> {
    if sudo_available {
        seq![seq!['s', 'u', 'd', 'o']] + parts
    } else {
        parts
    }
}

/// Puts `sudo` in front of a privileged command when it is available.
pub fn append_sudo_if_available(command_parts: Vec<String>, sudo_available: bool) -> (r: Vec<String>)
    ensures
        r@.map_values(|p: String| p@) == elevated(command_parts@.map_values(|p: String| p@), sudo_available),
{
    let mut updated: Vec<String> = Vec::new();
    if sudo_available {
        let sudo = "sudo";
        proof {
            reveal_strlit("sudo");
        }
        updated.push(String::from_str(sudo));
    }
    let ghost start = updated@;
    let mut i: usize = 0;
    while i < command_parts.len()
        invariant
            i <= command_parts@.len(),
            updated@ == start + command_parts@.take(i as int),
        decreases command_parts@.len() - i,
    {
        updated.push(command_parts[i].clone());
        assert(command_parts@.take(i as int + 1) =~= command_parts@.take(i as int).push(command_parts@[i as int]));
        i = i + 1;
    }
    assert(command_parts@.take(command_parts@.len() as int) =~= command_parts@);
    let ghost parts = command_parts@.map_values(|p: String| p@);
    let ghost out = updated@.map_values(|p: String| p@);
    let ghost want = elevated(parts, sudo_available);
    assert(start.len() == if sudo_available { 1int } else { 0int });
    assert(sudo_available ==> start[0]@ == seq!['s', 'u', 'd', 'o']);
    assert(out.len() == want.len());
    assert forall|k: int| 0 <= k < out.len() implies out[k] == want[k] by {
        if sudo_available && k == 0 {
        } else if sudo_available {
            assert(updated@[k] == command_parts@[k - 1]);
        } else {
            assert(updated@[k] == command_parts@[k]);
        }
    }
    assert(out =~= want);
    updated
}

} // verus!

verus! {

/// The copy command line: `dd if=<source> of=<target> status=progress`.
pub open spec fn copy_line(source: Seq<char>, target: Seq<char>) -> Seq<Seq<char>> {
    seq![
        seq!['d', 'd'],
        seq!['i', 'f', '='] + source,
        seq!['o', 'f', '='] + target,
        seq!['s', 't', 'a', 't', 'u', 's', '=', 'p', 'r', 'o', 'g', 'r', 'e', 's', 's'],
    ]
}

/// The command that copies a device into an image file.
pub fn copy_command(source: &str, target: &str) -> (r: Vec<String>)
    ensures
        r@.map_values(|p: String| p@) == copy_line(source@, target@),
{
    let dd = "dd";
    let input = "if=";
    let output = "of=";
    let progress = "status=progress";
    proof {
        reveal_strlit("dd");
        reveal_strlit("if=");
        reveal_strlit("of=");
        reveal_strlit("status=progress");
    }
    let mut r: Vec<String> = Vec::new();
    r.push(String::from_str(dd));
    r.push(String::from_str(input).concat(source));
    r.push(String::from_str(output).concat(target));
    r.push(String::from_str(progress));
    let ghost want = copy_line(source@, target@);
    assert(r@.len() == 4);
    assert(r@[0]@ == want[0]);
    assert(r@[1]@ == want[1]);
    assert(r@[2]@ == want[2]);
    assert(r@[3]@ == want[3]);
    assert(r@.map_values(|p: String| p@) =~= want);
    r
}

} // verus!
