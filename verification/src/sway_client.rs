//! What the sway client makes of sway's replies: the failures of a command,
//! and their message.
use vstd::prelude::*;

verus! {

/// A failure reported by sway or by the connection to it.
#[verifier::external_type_specification]
#[verifier::external_body]
pub struct ExSwayError(swayipc_async::Error);

/// The failures of one command, in the order sway reported them.
#[derive(Debug)]
pub struct SwayErrorGroup(pub Vec<swayipc_async::Error>);

/// The failures among the outcomes of a command's parts, in their order.
pub open spec fn failures_of(outcomes: Seq<Result<(), swayipc_async::Error>>) -> Seq<
    swayipc_async::Error,
>
    decreases outcomes.len(),
{
    if outcomes.len() == 0 {
        Seq::empty()
    } else {
        let rest = failures_of(outcomes.drop_last());
        match outcomes.last() {
            Ok(_) => rest,
            Err(e) => rest.push(e),
        }
    }
}

/// The first line of a group's message.
pub open spec fn group_header() -> Seq<char> {
    "Sway encountered one or more errors. Details:\n"@
}

/// The lines of `texts`, each followed by a newline.
pub open spec fn lines_of(texts: Seq<Seq<char>>) -> Seq<char>
    decreases texts.len(),
{
    if texts.len() == 0 {
        Seq::empty()
    } else {
        lines_of(texts.drop_last()) + texts.last() + "\n"@
    }
}

/// The message of a group whose failures read `texts`: the header, then one
/// line per failure.
pub open spec fn group_message(texts: Seq<Seq<char>>) -> Seq<char> {
    group_header() + lines_of(texts)
}

/// Whether `text` is what the `Display` impl of a sway failure writes for
/// `error`. It is a relation, not a function of the failure: the text of an
/// I/O failure comes from the operating system and may differ between
/// machines and calls.
pub uninterp spec fn displays_as(error: swayipc_async::Error, text: Seq<char>) -> bool;

/// The text of a sway failure, through its `Display` impl (derived with
/// thiserror in swayipc-types). Claimed: the text returned is a text that
/// this failure displays as; nothing is claimed of what the text is.
#[verifier::external_body]
fn sway_error_text(error: &swayipc_async::Error) -> (res: String)
    ensures
        displays_as(*error, res@),
{
    error.to_string()
}

/// The message of a group whose failures read `texts`.
pub fn render_group_message(texts: &Vec<String>) -> (res: String)
    ensures
        res@ == group_message(texts@.map_values(|t: String| t@)),
{
    let ghost views = texts@.map_values(|t: String| t@);
    let mut message = "Sway encountered one or more errors. Details:\n".to_owned();
    let n = texts.len();
    let mut i: usize = 0;
    while i < n
        invariant
            n == texts@.len(),
            views == texts@.map_values(|t: String| t@),
            i <= n,
            message@ == group_header() + lines_of(views.take(i as int)),
        decreases n - i,
    {
        message.append(texts[i].as_str());
        message.append("\n");
        proof {
            assert(views.take(i + 1).drop_last() =~= views.take(i as int));
            assert(views.take(i + 1).last() == texts@[i as int]@);
            assert(message@ =~= group_header() + lines_of(views.take(i + 1)));
        }
        i = i + 1;
    }
    proof {
        assert(views.take(n as int) =~= views);
    }
    message
}

impl SwayErrorGroup {
    /// A group of these failures.
    pub fn new(errs: Vec<swayipc_async::Error>) -> (res: SwayErrorGroup)
        ensures
            res.0@ == errs@,
    {
        SwayErrorGroup(errs)
    }

    /// The group's message: a header line, then one line per failure, in
    /// the group's order, each with that failure's own text.
    pub fn message(&self) -> (res: String)
        ensures
            exists|texts: Seq<Seq<char>>|
                {
                    &&& texts.len() == self.0@.len()
                    &&& forall|k: int|
                        0 <= k < texts.len() ==> displays_as(self.0@[k], #[trigger] texts[k])
                    &&& res@ == #[trigger] group_message(texts)
                },
    {
        let mut texts: Vec<String> = Vec::new();
        let n = self.0.len();
        let mut i: usize = 0;
        while i < n
            invariant
                n == self.0@.len(),
                i <= n,
                texts@.len() == i,
                forall|k: int| 0 <= k < i ==> displays_as(self.0@[k], #[trigger] texts@[k]@),
            decreases n - i,
        {
            texts.push(sway_error_text(&self.0[i]));
            i = i + 1;
        }
        let res = render_group_message(&texts);
        proof {
            let views = texts@.map_values(|t: String| t@);
            assert(views.len() == self.0@.len());
            assert forall|k: int| 0 <= k < views.len() implies displays_as(
                self.0@[k],
                #[trigger] views[k],
            ) by {
                assert(views[k] == texts@[k]@);
            }
            assert(res@ == group_message(views));
        }
        res
    }
}

impl From<Vec<swayipc_async::Error>> for SwayErrorGroup {
    fn from(errs: Vec<swayipc_async::Error>) -> (res: SwayErrorGroup) {
        SwayErrorGroup(errs)
    }
}

impl vstd::std_specs::convert::FromSpecImpl<Vec<swayipc_async::Error>> for SwayErrorGroup {
    open spec fn obeys_from_spec() -> bool {
        true
    }

    open spec fn from_spec(errs: Vec<swayipc_async::Error>) -> SwayErrorGroup {
        SwayErrorGroup(errs)
    }
}

/// The outcome of a command from the outcomes of its parts: success when
/// every part succeeded, otherwise the group of every failure, in order.
pub fn command_outcome(outcomes: Vec<Result<(), swayipc_async::Error>>) -> (res: Result<
    (),
    SwayErrorGroup,
>)
    ensures
        res is Ok <==> forall|k: int| 0 <= k < outcomes@.len() ==> #[trigger] outcomes@[k] is Ok,
        match res {
            Ok(_) => failures_of(outcomes@).len() == 0,
            Err(group) => group.0@ == failures_of(outcomes@) && group.0@.len() > 0,
        },
{
    let ghost all = outcomes@;
    let mut errs: Vec<swayipc_async::Error> = Vec::new();
    let mut rest = outcomes;
    let n = rest.len();
    let mut i: usize = 0;
    while i < n
        invariant
            n == all.len(),
            i <= n,
            rest@ == all.skip(i as int),
            errs@ == failures_of(all.take(i as int)),
        decreases n - i,
    {
        let outcome = rest.remove(0);
        proof {
            assert(outcome == all[i as int]);
            assert(all.take(i + 1).drop_last() =~= all.take(i as int));
            assert(all.take(i + 1).last() == all[i as int]);
            assert(rest@ =~= all.skip(i + 1));
        }
        match outcome {
            Ok(()) => {},
            Err(e) => {
                errs.push(e);
            },
        }
        i = i + 1;
    }
    proof {
        assert(all.take(n as int) =~= all);
        lemma_failures_none_iff_all_ok(all);
    }
    if errs.len() == 0 {
        Ok(())
    } else {
        Err(SwayErrorGroup(errs))
    }
}

/// No failure is collected exactly when every part succeeded.
pub proof fn lemma_failures_none_iff_all_ok(outcomes: Seq<Result<(), swayipc_async::Error>>)
    ensures
        failures_of(outcomes).len() == 0 <==> forall|k: int|
            0 <= k < outcomes.len() ==> #[trigger] outcomes[k] is Ok,
    decreases outcomes.len(),
{
    if outcomes.len() > 0 {
        let rest = outcomes.drop_last();
        lemma_failures_none_iff_all_ok(rest);
        let n = outcomes.len() - 1;
        assert(outcomes[n] == outcomes.last());
        if outcomes.last() is Err {
            assert(!(outcomes[n] is Ok));
        } else {
            if forall|k: int| 0 <= k < rest.len() ==> #[trigger] rest[k] is Ok {
                assert forall|k: int| 0 <= k < outcomes.len() implies #[trigger] outcomes[k] is Ok by {
                    if k < n {
                        assert(rest[k] == outcomes[k]);
                    }
                }
            } else {
                let k = choose|k: int| 0 <= k < rest.len() && !(#[trigger] rest[k] is Ok);
                assert(rest[k] == outcomes[k]);
            }
        }
    }
}

/// The failures of a part alone: its failure if it failed, none otherwise.
pub proof fn lemma_failures_of_one(outcome: Result<(), swayipc_async::Error>)
    ensures
        failures_of(seq![outcome]) == match outcome {
            Ok(_) => Seq::<swayipc_async::Error>::empty(),
            Err(e) => seq![e],
        },
{
    let one = seq![outcome];
    assert(one.drop_last() =~= Seq::<Result<(), swayipc_async::Error>>::empty());
    assert(one.last() == outcome);
    assert(failures_of(one.drop_last()) == Seq::<swayipc_async::Error>::empty());
    match outcome {
        Ok(_) => {},
        Err(e) => {
            assert(Seq::<swayipc_async::Error>::empty().push(e) =~= seq![e]);
        },
    }
}

/// The failures of two runs of parts one after the other are the failures
/// of the first, then those of the second: each failure is kept, in order.
pub proof fn lemma_failures_of_concat(
    a: Seq<Result<(), swayipc_async::Error>>,
    b: Seq<Result<(), swayipc_async::Error>>,
)
    ensures
        failures_of(a + b) == failures_of(a) + failures_of(b),
    decreases b.len(),
{
    if b.len() == 0 {
        assert(a + b =~= a);
        assert(failures_of(b) =~= Seq::<swayipc_async::Error>::empty());
        assert(failures_of(a) + failures_of(b) =~= failures_of(a));
    } else {
        lemma_failures_of_concat(a, b.drop_last());
        assert((a + b).drop_last() =~= a + b.drop_last());
        assert((a + b).last() == b.last());
        match b.last() {
            Ok(_) => {},
            Err(e) => {
                assert(failures_of(a) + failures_of(b.drop_last()).push(e) =~= (failures_of(a)
                    + failures_of(b.drop_last())).push(e));
            },
        }
    }
}

} // verus!
