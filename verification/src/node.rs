use vstd::prelude::*;

use crate::table::SlashMap;
use crate::table::SlashValue;
use crate::table::cell_of;
use crate::table::table_of;
use crate::values::clone_opt_value;

verus! {

/// The tag of a node in the command-option tree.
#[derive(Clone, Copy, Debug)]
pub enum OptionKind {
    String,
    Integer,
    Boolean,
    User,
    Channel,
    Role,
    Mentionable,
    Number,
    SubCommand,
    SubCommandGroup,
    Unknown,
}

/// Whether a node tag marks a nesting level rather than a leaf parameter.
pub open spec fn is_sub_kind(k: OptionKind) -> bool {
    k is SubCommand || k is SubCommandGroup
}

/// Whether this node tag marks a nesting level rather than a leaf parameter.
pub fn is_sub(k: &OptionKind) -> (r: bool)
    ensures
        r == is_sub_kind(*k),
{
    matches!(k, OptionKind::SubCommand | OptionKind::SubCommandGroup)
}

/// A node of the incoming command-invocation payload tree.
pub struct InteractionNode {
    /// The option or command name.
    pub name: String,
    /// The node's tag.
    pub kind: OptionKind,
    /// Nested options; empty for leaves.
    pub children: Vec<InteractionNode>,
    /// The concrete decoded value, when the node is a leaf parameter.
    pub resolved: Option<crate::values::TypedValue>,
}

/// The command path of a node: its own name, followed by the names along the
/// chain of subcommand-tagged first children.
pub open spec fn path_of(node: InteractionNode) -> Seq<Seq<char>>
    decreases node,
{
    if node.children@.len() > 0 && is_sub_kind(node.children@[0].kind) {
        seq![node.name@] + path_of(node.children@[0])
    } else {
        seq![node.name@]
    }
}

/// The residual children of a node: the sibling list of leaf-level options
/// found where the subcommand chain stops.
pub open spec fn residual_of(node: InteractionNode) -> Seq<InteractionNode>
    decreases node,
{
    if node.children@.len() > 0 && is_sub_kind(node.children@[0].kind) {
        residual_of(node.children@[0])
    } else {
        node.children@
    }
}

/// The number of subcommand-tagged nodes along the chain of first children.
pub open spec fn chain_len(node: InteractionNode) -> nat
    decreases node,
{
    if node.children@.len() > 0 && is_sub_kind(node.children@[0].kind) {
        1 + chain_len(node.children@[0])
    } else {
        0
    }
}

/// Path segments joined with a single space.
pub open spec fn joined(segs: Seq<Seq<char>>) -> Seq<char>
    decreases segs.len(),
{
    if segs.len() == 0 {
        Seq::<char>::empty()
    } else if segs.len() == 1 {
        segs[0]
    } else {
        joined(segs.drop_last()) + seq![' '] + segs.last()
    }
}

/// The views of a sequence of strings.
pub open spec fn views_of(segs: Seq<String>) -> Seq<Seq<char>> {
    segs.map_values(|s: String| s@)
}

/// Every command path starts with, and therefore contains, the root node's
/// name, so it always has at least one segment.
pub proof fn lemma_path_has_root(node: InteractionNode)
    ensures
        path_of(node).len() >= 1,
        path_of(node)[0] == node.name@,
{
}

/// Where the first child (if any) is not subcommand-tagged, the path is the
/// root's name alone and the residual children are the node's direct
/// children, unchanged.
pub proof fn lemma_leaf_level(node: InteractionNode)
    requires
        node.children@.len() == 0 || !is_sub_kind(node.children@[0].kind),
    ensures
        path_of(node) =~= seq![node.name@],
        residual_of(node) == node.children@,
{
}

/// Descending one subcommand level prepends the parent's name to the child's
/// path and leaves the residual children those of the child.
pub proof fn lemma_subcommand_step(node: InteractionNode)
    requires
        node.children@.len() > 0,
        is_sub_kind(node.children@[0].kind),
    ensures
        path_of(node) == seq![node.name@] + path_of(node.children@[0]),
        residual_of(node) == residual_of(node.children@[0]),
        chain_len(node) == 1 + chain_len(node.children@[0]),
{
}

/// A chain of N nested subcommand nodes yields a path of N + 1 segments.
pub proof fn lemma_path_len(node: InteractionNode)
    ensures
        path_of(node).len() == chain_len(node) + 1,
    decreases node,
{
    if node.children@.len() > 0 && is_sub_kind(node.children@[0].kind) {
        lemma_path_len(node.children@[0]);
    }
}

/// Joining a path of one or more further segments inserts exactly one space
/// after the first segment.
pub proof fn lemma_joined_cons(first: Seq<char>, rest: Seq<Seq<char>>)
    requires
        rest.len() > 0,
    ensures
        joined(seq![first] + rest) =~= first + seq![' '] + joined(rest),
    decreases rest.len(),
{
    let whole = seq![first] + rest;
    assert(whole.len() == 1 + rest.len());
    assert(whole.last() == rest.last());
    if rest.len() == 1 {
        assert(whole.drop_last() =~= seq![first]);
        assert(joined(whole) == joined(seq![first]) + seq![' '] + rest[0]);
        assert(joined(seq![first]) == first);
        assert(joined(rest) == rest[0]);
        assert(first + seq![' '] + rest[0] =~= first + seq![' '] + joined(rest));
    } else {
        lemma_joined_cons(first, rest.drop_last());
        assert(whole.drop_last() =~= seq![first] + rest.drop_last());
        assert(joined(whole) == joined(seq![first] + rest.drop_last()) + seq![' '] + rest.last());
        assert(joined(rest) == joined(rest.drop_last()) + seq![' '] + rest.last());
        assert(joined(whole) =~= (first + seq![' '] + joined(rest.drop_last())) + seq![' ']
            + rest.last());
        assert((first + seq![' '] + joined(rest.drop_last())) + seq![' '] + rest.last() =~= first
            + seq![' '] + (joined(rest.drop_last()) + seq![' '] + rest.last()));
    }
}

/// Decodes an interaction payload: walks the subcommand chain downward from
/// the root, and returns the space-joined command path together with the
/// argument table built from the residual leaf options.
pub fn process(interaction: &InteractionNode) -> (r: (String, SlashMap))
    ensures
        r.0@ == joined(path_of(*interaction)),
        r.1@ == table_of(residual_of(*interaction)),
        r.1.wf(),
{
    let mut segs: Vec<String> = Vec::new();
    segs.push(interaction.name.clone());
    let mut cur: &InteractionNode = interaction;
    proof {
        lemma_path_has_root(*interaction);
        assert(views_of(segs@) =~= seq![interaction.name@]);
        assert(path_of(*interaction) =~= seq![interaction.name@] + path_of(
            *interaction,
        ).drop_first());
    }
    loop
        invariant
            segs@.len() >= 1,
            residual_of(*interaction) == residual_of(*cur),
            path_of(*interaction) == views_of(segs@) + path_of(*cur).drop_first(),
        ensures
            residual_of(*interaction) == residual_of(*cur),
            residual_of(*cur) == cur.children@,
            views_of(segs@) == path_of(*interaction),
        decreases chain_len(*cur),
    {
        if cur.children.len() > 0 {
            let c: &InteractionNode = &cur.children[0];
            if is_sub(&c.kind) {
                proof {
                    lemma_subcommand_step(*cur);
                    lemma_path_has_root(*c);
                    assert(path_of(*cur).drop_first() =~= path_of(*c));
                    assert(path_of(*c) =~= seq![c.name@] + path_of(*c).drop_first());
                }
                let ghost old_views = views_of(segs@);
                segs.push(c.name.clone());
                proof {
                    assert(views_of(segs@) =~= old_views + seq![c.name@]);
                    assert((old_views + seq![c.name@]) + path_of(*c).drop_first() =~= old_views + (
                    seq![c.name@] + path_of(*c).drop_first()));
                }
                cur = c;
            } else {
                proof {
                    assert(path_of(*cur) =~= seq![cur.name@]);
                    assert(path_of(*cur).drop_first() =~= Seq::<Seq<char>>::empty());
                    assert(views_of(segs@) + Seq::<Seq<char>>::empty() =~= views_of(segs@));
                }
                break ;
            }
        } else {
            proof {
                assert(path_of(*cur) =~= seq![cur.name@]);
                assert(path_of(*cur).drop_first() =~= Seq::<Seq<char>>::empty());
                assert(views_of(segs@) + Seq::<Seq<char>>::empty() =~= views_of(segs@));
            }
            break ;
        }
    }
    let mut path = String::new();
    let mut i: usize = 0;
    while i < segs.len()
        invariant
            i <= segs@.len(),
            views_of(segs@) == path_of(*interaction),
            path@ == joined(views_of(segs@).take(i as int)),
        decreases segs@.len() - i,
    {
        let ghost vs = views_of(segs@);
        let ghost old_path = path@;
        if i > 0 {
            path.append(" ");
        }
        path.append(segs[i].as_str());
        proof {
            reveal_strlit(" ");
            assert(" "@ =~= seq![' ']);
            assert(vs[i as int] == segs@[i as int]@);
            assert(vs.take(i as int + 1).last() == vs[i as int]);
            if i > 0 {
                assert(vs.take(i as int + 1).drop_last() =~= vs.take(i as int));
                assert(joined(vs.take(i as int + 1)) == joined(vs.take(i as int)) + seq![' ']
                    + vs[i as int]);
                assert(path@ =~= old_path + seq![' '] + vs[i as int]);
            } else {
                assert(joined(vs.take(1)) == vs.take(1)[0]);
                assert(path@ =~= vs[0]);
            }
        }
        i += 1;
    }
    proof {
        assert(views_of(segs@).take(segs@.len() as int) =~= views_of(segs@));
    }
    let residual: &Vec<InteractionNode> = &cur.children;
    let mut cells: Vec<SlashValue> = Vec::new();
    let mut k: usize = 0;
    while k < residual.len()
        invariant
            k <= residual@.len(),
            cells@.len() == k,
            forall|j: int| 0 <= j < k ==> cells@[j] == cell_of(residual@[j]),
        decreases residual@.len() - k,
    {
        cells.push(
            SlashValue {
                inner: clone_opt_value(&residual[k].resolved),
                name: residual[k].name.clone(),
            },
        );
        k += 1;
    }
    proof {
        assert(cells@ =~= residual@.map_values(|n: InteractionNode| cell_of(n)));
    }
    let map = SlashMap::from_cells(cells);
    (path, map)
}

} // verus!

