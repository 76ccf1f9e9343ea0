//! What the local web service hands to a joining client: the join script with
//! the user, the port and the address of the host filled in.

use vstd::prelude::*;
use vstd::string::*;

use crate::text::{decimal_digits, decimal_text};

verus! {

/// Whether `pattern` stands in `text` from position `at` on.
pub open spec fn stands_at(text: Seq<char>, pattern: Seq<char>, at: int) -> bool {
    &&& 0 <= at
    &&& at + pattern.len() <= text.len()
    &&& text.subrange(at, at + pattern.len()) == pattern
}

/// Whether `pattern` stands somewhere in `text` as an unbroken run.
pub open spec fn stands_in(text: Seq<char>, pattern: Seq<char>) -> bool {
    exists|at: int| stands_at(text, pattern, at)
}

/// `text` with every match of `from` replaced by `to`: the matches are taken
/// from the left and do not overlap, and what is put in is not searched
/// again. An empty `from` matches before every character and at the end.
pub open spec fn replaced(text: Seq<char>, from: Seq<char>, to: Seq<char>) -> Seq<char>
    decreases text.len(),
{
    if from.len() == 0 {
        if text.len() == 0 {
            to
        } else {
            to + seq![text.first()] + replaced(text.drop_first(), from, to)
        }
    } else if text.len() < from.len() {
        text
    } else if text.subrange(0, from.len() as int) == from {
        to + replaced(text.subrange(from.len() as int, text.len() as int), from, to)
    } else {
        seq![text.first()] + replaced(text.drop_first(), from, to)
    }
}

/// Replaces every match of `from` in `text` by `to` with `str::replace` of
/// the standard library. It is taken on trust that `str::replace` gives what
/// `replaced` says: it replaces the matches that a search from the left
/// finds one after the other, none overlapping another.
#[verifier::external_body]
fn replace_all(text: &str, from: &str, to: &str) -> (result: String)
    ensures
        result@ == replaced(text@, from@, to@),
{
    text.replace(from, to)
}

/// A text in which the pattern does not stand is left as it is.
pub proof fn lemma_replaced_without_match(text: Seq<char>, from: Seq<char>, to: Seq<char>)
    requires
        from.len() > 0,
        !stands_in(text, from),
    ensures
        replaced(text, from, to) == text,
    decreases text.len(),
{
    if text.len() >= from.len() {
        assert(!stands_at(text, from, 0));
        let rest = text.drop_first();
        assert forall|at: int| !stands_at(rest, from, at) by {
            if stands_at(rest, from, at) {
                assert(rest.subrange(at, at + from.len()) =~= text.subrange(
                    at + 1,
                    at + 1 + from.len(),
                ));
                assert(stands_at(text, from, at + 1));
            }
        }
        lemma_replaced_without_match(rest, from, to);
        assert(seq![text.first()] + rest =~= text);
    }
}

/// What stands before the first match is kept, the match gives way to the
/// replacement, and the search goes on behind the match.
pub proof fn lemma_replaced_at_first_match(
    text: Seq<char>,
    from: Seq<char>,
    to: Seq<char>,
    at: int,
)
    requires
        from.len() > 0,
        stands_at(text, from, at),
        forall|earlier: int| 0 <= earlier < at ==> !stands_at(text, from, earlier),
    ensures
        replaced(text, from, to) == text.subrange(0, at) + to + replaced(
            text.subrange(at + from.len(), text.len() as int),
            from,
            to,
        ),
    decreases at,
{
    let behind = text.subrange(at + from.len(), text.len() as int);
    if at == 0 {
        assert(text.subrange(0, 0) + to + replaced(behind, from, to) =~= to + replaced(
            behind,
            from,
            to,
        ));
    } else {
        assert(!stands_at(text, from, 0));
        let rest = text.drop_first();
        assert(rest.subrange(at - 1, at - 1 + from.len()) =~= text.subrange(at, at + from.len()));
        assert forall|earlier: int| 0 <= earlier < at - 1 implies !stands_at(
            rest,
            from,
            earlier,
        ) by {
            if stands_at(rest, from, earlier) {
                assert(rest.subrange(earlier, earlier + from.len()) =~= text.subrange(
                    earlier + 1,
                    earlier + 1 + from.len(),
                ));
                assert(stands_at(text, from, earlier + 1));
            }
        }
        lemma_replaced_at_first_match(rest, from, to, at - 1);
        assert(rest.subrange(at - 1 + from.len(), rest.len() as int) =~= behind);
        assert(seq![text.first()] + (rest.subrange(0, at - 1) + to + replaced(behind, from, to))
            =~= text.subrange(0, at) + to + replaced(behind, from, to));
    }
}

/// The address that a client joins where none is given.
pub open spec fn default_server_ip() -> Seq<char> {
    "localhost"@
}

/// The join script made from `template`: the user's number for
/// `{{user_id}}`, then the port for `{{server_port}}`, then the address of
/// the host for `{{server_ip}}`.
pub open spec fn join_script_from(
    template: Seq<char>,
    user_id: usize,
    server_port: usize,
    server_ip: Seq<char>,
) -> Seq<char> {
    replaced(
        replaced(
            replaced(template, "{{user_id}}"@, decimal_digits(user_id as nat)),
            "{{server_port}}"@,
            decimal_digits(server_port as nat),
        ),
        "{{server_ip}}"@,
        server_ip,
    )
}

/// Fills the join script's template in; a client that names no host joins
/// one on its own machine.
pub fn render_join_script(
    template: &str,
    user_id: usize,
    server_port: usize,
    server_ip: Option<&str>,
) -> (script: String)
    ensures
        script@ == join_script_from(
            template@,
            user_id,
            server_port,
            match server_ip {
                Some(ip) => ip@,
                None => default_server_ip(),
            },
        ),
        !stands_in(template@, "{{user_id}}"@) && !stands_in(template@, "{{server_port}}"@)
            && !stands_in(template@, "{{server_ip}}"@) ==> script@ == template@,
{
    let ip = match server_ip {
        Some(ip) => ip,
        None => "localhost",
    };
    proof {
        reveal_strlit("{{user_id}}");
        reveal_strlit("{{server_port}}");
        reveal_strlit("{{server_ip}}");
        if !stands_in(template@, "{{user_id}}"@) && !stands_in(template@, "{{server_port}}"@)
            && !stands_in(template@, "{{server_ip}}"@) {
            lemma_replaced_without_match(
                template@,
                "{{user_id}}"@,
                decimal_digits(user_id as nat),
            );
            lemma_replaced_without_match(
                template@,
                "{{server_port}}"@,
                decimal_digits(server_port as nat),
            );
            lemma_replaced_without_match(template@, "{{server_ip}}"@, ip@);
        }
    }
    let with_user = replace_all(template, "{{user_id}}", decimal_text(user_id as u64).as_str());
    let with_port = replace_all(
        with_user.as_str(),
        "{{server_port}}",
        decimal_text(server_port as u64).as_str(),
    );
    replace_all(with_port.as_str(), "{{server_ip}}", ip)
}

} // verus!
