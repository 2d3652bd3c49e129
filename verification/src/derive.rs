//! What the `ability` attribute generates: which entry points an ability
//! gets, and which custom protocols it registers.

use vstd::prelude::*;
use vstd::string::StrSliceExecFns;

verus! {

/// The pieces of `text` between the separators, in order. A text without a
/// separator is one piece; two separators in a row have an empty piece
/// between them, and so has a separator at either end beside it.
pub open spec fn split_on(text: Seq<char>, separator: char) -> Seq<Seq<char>>
    decreases text.len(),
{
    if text.len() == 0 {
        seq![Seq::<char>::empty()]
    } else {
        let before = split_on(text.drop_last(), separator);
        if text.last() == separator {
            before.push(Seq::<char>::empty())
        } else {
            before.update(before.len() - 1, before.last().push(text.last()))
        }
    }
}

/// The pieces put together again, with the separator between them.
pub open spec fn join_with(pieces: Seq<Seq<char>>, separator: char) -> Seq<char>
    decreases pieces.len(),
{
    if pieces.len() == 0 {
        Seq::<char>::empty()
    } else if pieces.len() == 1 {
        pieces[0]
    } else {
        join_with(pieces.drop_last(), separator).push(separator) + pieces.last()
    }
}

/// Splitting always gives at least one piece, and no piece holds the
/// separator.
pub proof fn lemma_split_pieces(text: Seq<char>, separator: char)
    ensures
        split_on(text, separator).len() >= 1,
        forall|i: int, j: int|
            0 <= i < split_on(text, separator).len() && 0 <= j < split_on(text, separator)[i].len()
                ==> #[trigger] split_on(text, separator)[i][j] != separator,
    decreases text.len(),
{
    if text.len() > 0 {
        lemma_split_pieces(text.drop_last(), separator);
    }
}

/// Joining the pieces of a text with the separator gives the text back.
pub proof fn lemma_join_split(text: Seq<char>, separator: char)
    ensures
        join_with(split_on(text, separator), separator) == text,
    decreases text.len(),
{
    let pieces = split_on(text, separator);
    if text.len() == 0 {
        assert(join_with(pieces, separator) =~= text);
    } else {
        let shorter = text.drop_last();
        let before = split_on(shorter, separator);
        lemma_split_pieces(shorter, separator);
        lemma_join_split(shorter, separator);
        if text.last() == separator {
            assert(pieces.drop_last() =~= before);
            assert(join_with(pieces, separator) =~= shorter.push(separator));
            assert(shorter.push(separator) =~= text);
        } else {
            let grown = before.last().push(text.last());
            if before.len() == 1 {
                assert(join_with(pieces, separator) =~= before[0].push(text.last()));
                assert(before[0] == shorter);
                assert(shorter.push(text.last()) =~= text);
            } else {
                assert(pieces.drop_last() =~= before.drop_last());
                assert(join_with(pieces, separator) =~= (join_with(
                    before.drop_last(),
                    separator,
                ).push(separator) + before.last()).push(text.last()));
                assert(shorter.push(text.last()) =~= text);
            }
        }
    }
}

/// The pieces of `text` between commas.
pub fn split_commas(text: &str) -> (r: Vec<String>)
    ensures
        r.deep_view() == split_on(text@, ','),
{
    let length = text.unicode_len();
    let mut pieces: Vec<String> = Vec::new();
    let mut start: usize = 0;
    let mut i: usize = 0;
    assert(text@.take(0) =~= Seq::<char>::empty());
    assert(pieces.deep_view().push(text@.subrange(0, 0)) =~= split_on(text@.take(0), ','));
    while i < length
        invariant
            start <= i <= length,
            length == text@.len(),
            pieces.deep_view().push(text@.subrange(start as int, i as int)) == split_on(
                text@.take(i as int),
                ',',
            ),
        decreases length - i,
    {
        let ghost done = pieces.deep_view();
        let ghost current = text@.subrange(start as int, i as int);
        proof {
            let next = text@.take(i + 1);
            assert(next.drop_last() =~= text@.take(i as int));
            assert(next.last() == text@[i as int]);
        }
        if text.get_char(i) == ',' {
            let piece = text.substring_char(start, i).to_owned();
            pieces.push(piece);
            start = i + 1;
            assert(pieces.deep_view() =~= done.push(current));
            assert(text@.subrange(start as int, i + 1) =~= Seq::<char>::empty());
        } else {
            assert(text@.subrange(start as int, i + 1) =~= current.push(text@[i as int]));
            assert(done.push(current).update(done.len() as int, current.push(text@[i as int]))
                =~= done.push(current.push(text@[i as int])));
        }
        i += 1;
    }
    let ghost done = pieces.deep_view();
    let last = text.substring_char(start, length).to_owned();
    pieces.push(last);
    assert(text@.take(length as int) =~= text@);
    assert(pieces.deep_view() =~= done.push(text@.subrange(start as int, length as int)));
    pieces
}

/// What was written in the brackets of the attribute.
#[derive(Debug)]
pub struct AbilityArgs {
    /// Whether the ability draws into a web view.
    pub webview: bool,
    /// The custom protocols of the ability, separated by commas.
    pub protocol: Option<String>,
}

impl Default for AbilityArgs {
    fn default() -> (r: AbilityArgs)
        ensures
            !r.webview,
            r.protocol is None,
    {
        AbilityArgs { webview: false, protocol: None }
    }
}

/// The entry point through which the host hands over the drawing surface.
#[derive(Debug, Clone, Copy, PartialEq, Eq, Structural)]
pub enum RenderEntry {
    /// `render`: the ability gets a native surface of its own.
    XComponent,
    /// `webview_render`: the ability draws into a web view.
    WebView,
}

/// What the attribute generates for an ability.
#[derive(Debug)]
pub struct AbilityPlan {
    /// The entry point for drawing.
    pub render: RenderEntry,
    /// The custom protocols to register, in the order written.
    pub protocols: Vec<String>,
    /// Whether an entry point that registers the protocols is generated.
    pub register_protocols: bool,
}

impl AbilityArgs {
    /// The protocols that the arguments name.
    pub open spec fn spec_protocols(self) -> Seq<Seq<char>> {
        match self.protocol {
            Some(list) => split_on(list@, ','),
            None => Seq::<Seq<char>>::empty(),
        }
    }

    /// The entry point for drawing that the arguments ask for.
    pub open spec fn spec_render(self) -> RenderEntry {
        if self.webview {
            RenderEntry::WebView
        } else {
            RenderEntry::XComponent
        }
    }

    /// What to generate. Protocols are registered only by an ability that
    /// draws into a web view and names some.
    pub fn plan(&self) -> (r: AbilityPlan)
        ensures
            r.render == self.spec_render(),
            r.protocols.deep_view() == self.spec_protocols(),
            r.register_protocols == (self.protocol is Some && self.webview),
    {
        let protocols = match &self.protocol {
            Some(list) => split_commas(list.as_str()),
            None => {
                let none: Vec<String> = Vec::new();
                assert(none.deep_view() =~= Seq::<Seq<char>>::empty());
                none
            },
        };
        let render = if self.webview {
            RenderEntry::WebView
        } else {
            RenderEntry::XComponent
        };
        AbilityPlan { render, protocols, register_protocols: self.protocol.is_some() && self.webview }
    }
}

} // verus!
