//! Turning a validated session description into the ordered argument list
//! and working directory for the external process.

use vstd::prelude::*;
use vstd::string::*;
use crate::address::{encode_part, encoded_part, key_chars, DPAddressPart};
use crate::guid::braced_of;
use crate::options::{DPRunOptions, SessionType};

verus! {

/// The serialized form of a session description: the ordered argument tokens
/// toward the external tool, and the optional working directory. A pure
/// function of the options value; no hidden state.
pub struct LaunchPlan {
    /// The argument tokens, in the exact order the external tool requires.
    pub tokens: Vec<String>,
    /// The working directory for the external process; absent means the
    /// caller's current directory.
    pub cwd: Option<String>,
}

/// The mode argument group: `--host` with an optional identifier, or
/// `--join` with a mandatory one.
pub open spec fn mode_tokens(t: SessionType) -> Seq<Seq<char>> {
    match t {
        SessionType::Host(None) => seq!["--host"@],
        SessionType::Host(Some(g)) => seq!["--host"@, braced_of(g@)],
        SessionType::Join(g) => seq!["--join"@, braced_of(g@)],
    }
}

/// The `--address` token pairs for the given parts, in list order.
pub open spec fn address_tokens(parts: Seq<DPAddressPart>) -> Seq<Seq<char>>
    decreases parts.len(),
{
    if parts.len() == 0 {
        Seq::<Seq<char>>::empty()
    } else {
        address_tokens(parts.drop_last()) + seq!["--address"@, encoded_part(parts.last())]
    }
}

/// An optional flag-and-value group: present exactly when the value is.
pub open spec fn opt_tokens(flag: Seq<char>, v: Option<String>) -> Seq<Seq<char>> {
    match v {
        Some(s) => seq![flag, s@],
        None => Seq::<Seq<char>>::empty(),
    }
}

/// The full token sequence of a launch plan. The group order — mode, player,
/// provider, application, address parts, session name, session password — is
/// a compatibility contract with the external tool.
pub open spec fn plan_tokens<H>(o: DPRunOptions<H>) -> Seq<Seq<char>> {
    mode_tokens(o.session_type) + seq!["--player"@, o.player_name@] + seq![
        "--service-provider"@,
        key_chars(o.service_provider),
    ] + seq!["--application"@, braced_of(o.application@)] + address_tokens(o.address@)
        + opt_tokens("--session-name"@, o.session_name) + opt_tokens(
        "--session-password"@,
        o.session_password,
    )
}

/// Appends one token, tracked at the level of the token sequence model.
fn push_token(tokens: &mut Vec<String>, t: String)
    ensures
        final(tokens).deep_view() == old(tokens).deep_view().push(t@),
{
    tokens.push(t);
    proof {
        assert(tokens.deep_view() =~= old(tokens).deep_view().push(t@));
    }
}

/// Serializes a validated session description into its launch plan.
pub fn assemble<H>(options: &DPRunOptions<H>) -> (plan: LaunchPlan)
    ensures
        plan.tokens.deep_view() == plan_tokens(*options),
        plan.cwd == options.cwd,
{
    let mut tokens: Vec<String> = Vec::new();
    match &options.session_type {
        SessionType::Host(None) => {
            push_token(&mut tokens, String::from_str("--host"));
        },
        SessionType::Host(Some(g)) => {
            push_token(&mut tokens, String::from_str("--host"));
            push_token(&mut tokens, g.to_braced());
        },
        SessionType::Join(g) => {
            push_token(&mut tokens, String::from_str("--join"));
            push_token(&mut tokens, g.to_braced());
        },
    }
    proof {
        assert(tokens.deep_view() =~= mode_tokens(options.session_type));
    }
    push_token(&mut tokens, String::from_str("--player"));
    push_token(&mut tokens, options.player_name.clone());
    push_token(&mut tokens, String::from_str("--service-provider"));
    push_token(&mut tokens, options.service_provider.to_arg_string());
    push_token(&mut tokens, String::from_str("--application"));
    push_token(&mut tokens, options.application.to_braced());
    let ghost head: Seq<Seq<char>> = mode_tokens(options.session_type) + seq![
        "--player"@,
        options.player_name@,
    ] + seq!["--service-provider"@, key_chars(options.service_provider)] + seq![
        "--application"@,
        braced_of(options.application@),
    ];
    proof {
        assert(tokens.deep_view() =~= head);
    }
    let mut i: usize = 0;
    while i < options.address.len()
        invariant
            i <= options.address.len(),
            tokens.deep_view() == head + address_tokens(options.address@.subrange(0, i as int)),
        decreases options.address.len() - i,
    {
        push_token(&mut tokens, String::from_str("--address"));
        push_token(&mut tokens, encode_part(&options.address[i]));
        proof {
            let pre = options.address@.subrange(0, i as int);
            let post = options.address@.subrange(0, i as int + 1);
            assert(post.drop_last() =~= pre);
            assert(post.last() == options.address@[i as int]);
            assert(address_tokens(post) == address_tokens(pre) + seq![
                "--address"@,
                encoded_part(options.address@[i as int]),
            ]);
            assert(tokens.deep_view() =~= head + address_tokens(post));
        }
        i = i + 1;
    }
    proof {
        assert(options.address@.subrange(0, options.address@.len() as int) =~= options.address@);
    }
    let ghost with_address: Seq<Seq<char>> = head + address_tokens(options.address@);
    match &options.session_name {
        Some(name) => {
            push_token(&mut tokens, String::from_str("--session-name"));
            push_token(&mut tokens, name.clone());
        },
        None => {},
    }
    proof {
        assert(tokens.deep_view() =~= with_address + opt_tokens(
            "--session-name"@,
            options.session_name,
        ));
    }
    match &options.session_password {
        Some(password) => {
            push_token(&mut tokens, String::from_str("--session-password"));
            push_token(&mut tokens, password.clone());
        },
        None => {},
    }
    let cwd = match &options.cwd {
        Some(c) => Some(c.clone()),
        None => None,
    };
    proof {
        assert(tokens.deep_view() =~= plan_tokens(*options));
    }
    LaunchPlan { tokens, cwd }
}

/// A token wrapped in double quotes.
pub open spec fn quoted(t: Seq<char>) -> Seq<char> {
    seq!['"'] + t + seq!['"']
}

/// A token list rendered as one human-readable line: each token quoted,
/// tokens separated by single spaces.
pub open spec fn rendered(tokens: Seq<Seq<char>>) -> Seq<char>
    decreases tokens.len(),
{
    if tokens.len() == 0 {
        Seq::<char>::empty()
    } else if tokens.len() == 1 {
        quoted(tokens[0])
    } else {
        rendered(tokens.drop_last()) + seq![' '] + quoted(tokens.last())
    }
}

/// The tokens that name the program itself: the external executable, behind
/// the compatibility shim when the host platform cannot run it natively.
pub open spec fn program_tokens(use_shim: bool) -> Seq<Seq<char>> {
    if use_shim {
        seq!["wine"@, "dprun.exe"@]
    } else {
        seq!["dprun.exe"@]
    }
}

/// Appends one quoted token, preceded by a space when asked.
fn append_quoted(s: &mut String, t: &str, space_before: bool)
    ensures
        final(s)@ == old(s)@ + (if space_before {
            seq![' ']
        } else {
            Seq::<char>::empty()
        }) + quoted(t@),
{
    proof {
        reveal_strlit(" ");
        reveal_strlit("\"");
    }
    if space_before {
        s.append(" ");
    }
    s.append("\"");
    s.append(t);
    s.append("\"");
    proof {
        assert(s@ =~= old(s)@ + (if space_before {
            seq![' ']
        } else {
            Seq::<char>::empty()
        }) + quoted(t@));
    }
}

/// Appending one more token extends the rendering by a space and the quoted
/// token.
proof fn lemma_rendered_push(tokens: Seq<Seq<char>>, t: Seq<char>)
    requires
        tokens.len() >= 1,
    ensures
        rendered(tokens.push(t)) == rendered(tokens) + seq![' '] + quoted(t),
{
    assert(tokens.push(t).drop_last() =~= tokens);
    assert(tokens.push(t).last() == t);
}

impl LaunchPlan {
    /// The full invocation as one line, for debugging: the program tokens
    /// followed by the argument tokens, each quoted.
    pub fn command(&self, use_shim: bool) -> (r: String)
        ensures
            r@ == rendered(program_tokens(use_shim) + self.tokens.deep_view()),
    {
        let mut s = String::new();
        if use_shim {
            append_quoted(&mut s, "wine", false);
            append_quoted(&mut s, "dprun.exe", true);
        } else {
            append_quoted(&mut s, "dprun.exe", false);
        }
        proof {
            let pt = program_tokens(use_shim);
            if use_shim {
                assert(pt.drop_last() =~= seq!["wine"@]);
                assert(rendered(pt.drop_last()) == quoted("wine"@));
                assert(rendered(pt) == quoted("wine"@) + seq![' '] + quoted("dprun.exe"@));
            } else {
                assert(rendered(pt) == quoted("dprun.exe"@));
            }
            assert(rendered(pt) =~= s@);
        }
        let mut i: usize = 0;
        while i < self.tokens.len()
            invariant
                i <= self.tokens.len(),
                program_tokens(use_shim).len() >= 1,
                s@ == rendered(
                    program_tokens(use_shim) + self.tokens.deep_view().subrange(0, i as int),
                ),
            decreases self.tokens.len() - i,
        {
            append_quoted(&mut s, self.tokens[i].as_str(), true);
            proof {
                let all = program_tokens(use_shim);
                let pre = all + self.tokens.deep_view().subrange(0, i as int);
                let post = all + self.tokens.deep_view().subrange(0, i as int + 1);
                assert(post =~= pre.push(self.tokens.deep_view()[i as int]));
                lemma_rendered_push(pre, self.tokens.deep_view()[i as int]);
            }
            i = i + 1;
        }
        proof {
            assert(self.tokens.deep_view().subrange(0, self.tokens@.len() as int)
                =~= self.tokens.deep_view());
        }
        s
    }
}

/// The `--address` pairs stand two tokens per part, flag then encoded part,
/// in list order.
pub proof fn lemma_address_tokens_structure(parts: Seq<DPAddressPart>)
    ensures
        address_tokens(parts).len() == 2 * parts.len(),
        forall|i: int|
            0 <= i < parts.len() ==> #[trigger] address_tokens(parts)[2 * i] == "--address"@
                && address_tokens(parts)[2 * i + 1] == encoded_part(parts[i]),
    decreases parts.len(),
{
    if parts.len() > 0 {
        lemma_address_tokens_structure(parts.drop_last());
        assert forall|i: int| 0 <= i < parts.len() implies #[trigger] address_tokens(parts)[2 * i]
            == "--address"@ && address_tokens(parts)[2 * i + 1] == encoded_part(parts[i]) by {
            if i < parts.len() - 1 {
                assert(parts.drop_last()[i] == parts[i]);
                assert(address_tokens(parts.drop_last())[2 * i] == "--address"@);
                assert(address_tokens(parts)[2 * i] == address_tokens(parts.drop_last())[2 * i]);
                assert(address_tokens(parts)[2 * i + 1] == address_tokens(parts.drop_last())[2 * i
                    + 1]);
            } else {
                assert(parts.last() == parts[i]);
            }
        }
    }
}

/// Law: `assemble` is deterministic. Equal option values yield identical
/// token sequences.
pub proof fn lemma_assemble_deterministic<H>(a: DPRunOptions<H>, b: DPRunOptions<H>)
    requires
        a == b,
    ensures
        plan_tokens(a) == plan_tokens(b),
{
}

/// Law: the argument group order never varies. For any options value the
/// token sequence is exactly the mode group, then `--player` and the name,
/// then `--service-provider` and the provider, then `--application` and the
/// application identifier, then one `--address` pair per address part in
/// list order, then the optional session-name and session-password groups.
pub proof fn lemma_token_group_order<H>(o: DPRunOptions<H>)
    ensures
        plan_tokens(o) == mode_tokens(o.session_type) + seq!["--player"@, o.player_name@] + seq![
            "--service-provider"@,
            key_chars(o.service_provider),
        ] + seq!["--application"@, braced_of(o.application@)] + address_tokens(o.address@)
            + opt_tokens("--session-name"@, o.session_name) + opt_tokens(
            "--session-password"@,
            o.session_password,
        ),
        address_tokens(o.address@).len() == 2 * o.address@.len(),
        forall|i: int|
            0 <= i < o.address@.len() ==> #[trigger] address_tokens(o.address@)[2 * i]
                == "--address"@ && address_tokens(o.address@)[2 * i + 1] == encoded_part(
                o.address@[i],
            ),
{
    lemma_address_tokens_structure(o.address@);
}

} // verus!
