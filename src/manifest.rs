use vstd::prelude::*;

use opam_file_rs::value::{OpamFile, OpamFileItem, OpamFileSection, Value, ValueKind};

use crate::checksum::{
    first_separator, has_separator, lemma_first_separator_unique, separator_index,
};
use crate::error::ResolveError;
use crate::scan::{is_parser_safe, parser_safe};
use crate::text::same_text;

verus! {

broadcast use vstd::std_specs::vec::group_vec_axioms;

/// The parsed manifest file: its top-level items in document order.
#[verifier::external_type_specification]
pub struct ExOpamFile(OpamFile);

/// A variable `name: value` or a section `kind ["name"] { items }` of a parsed manifest.
#[verifier::external_type_specification]
pub struct ExOpamFileItem(OpamFileItem);

/// A section of a parsed manifest; its items are listed last to first.
#[verifier::external_type_specification]
pub struct ExOpamFileSection(OpamFileSection);

/// A value of a parsed manifest together with its position.
#[verifier::external_type_specification]
pub struct ExOpamValue(Value);

/// The shape of a value of a parsed manifest.
#[verifier::external_type_specification]
pub struct ExOpamValueKind(ValueKind);

/// A relational operator inside a manifest value.
#[verifier::external_type_specification]
#[verifier::external_body]
pub struct ExOpamRelOp(opam_file_rs::value::RelOp);

/// A logical operator inside a manifest value.
#[verifier::external_type_specification]
#[verifier::external_body]
pub struct ExOpamLogOp(opam_file_rs::value::LogOp);

/// A prefix operator inside a manifest value.
#[verifier::external_type_specification]
#[verifier::external_body]
pub struct ExOpamPfxOp(opam_file_rs::value::PfxOp);

/// An environment update operator inside a manifest value.
#[verifier::external_type_specification]
#[verifier::external_body]
pub struct ExOpamEnvUpdateOp(opam_file_rs::value::EnvUpdateOp);

/// The error of `opam_file_rs::parse`.
#[verifier::external_type_specification]
#[verifier::external_body]
pub struct ExOpamFileError(opam_file_rs::OpamFileError);

/// What `opam_file_rs::parse` makes of a text: the parsed file, or nothing on a syntax error.
pub uninterp spec fn opam_parse(text: Seq<char>) -> Option<OpamFile>;

/// Relies on `opam_file_rs::parse`: the result depends on the text alone. Its lexer
/// panics or loops on some escapes and numbers, and its values nest as deep as the text
/// does, so it is handed only text that the scan accepts.
#[verifier::external_body]
fn parse_opam(text: &str) -> (r: Result<OpamFile, opam_file_rs::OpamFileError>)
    requires
        parser_safe(text@),
    ensures
        match r {
            Ok(f) => opam_parse(text@) == Some(f),
            Err(_) => opam_parse(text@) is None,
        },
{
    opam_file_rs::parse(text)
}

/// The value of a manifest variable, as far as descriptor extraction reads it.
#[derive(Debug, Clone, PartialEq, Eq)]
pub enum ManifestValue {
    /// A quoted string.
    Text(String),
    /// Any other value (a boolean, a number, a list, a formula, ...).
    Other,
}

/// A node of a parsed manifest: a variable, or a named section holding nodes in document order.
#[derive(Debug)]
pub enum ManifestNode {
    Variable(String, ManifestValue),
    Section(String, Vec<ManifestNode>),
}

/// Where a descriptor's artifact is downloaded from, and the checksum it must match.
#[derive(Debug, Clone, PartialEq, Eq)]
pub struct ArtifactDescriptor {
    pub checksum: String,
    pub url: String,
}

pub open spec fn value_mirrors(v: Value, w: ManifestValue) -> bool {
    match v.kind {
        ValueKind::String(s) => w matches ManifestValue::Text(t) && t@ == s@,
        _ => w is Other,
    }
}

/// `node` is `item` in this library's terms, with every section's items in document order.
pub open spec fn node_mirrors(item: OpamFileItem, node: ManifestNode) -> bool
    decreases item,
{
    match item {
        OpamFileItem::Variable(_, name, value) => node matches ManifestNode::Variable(n, w) && n@
            == name@ && value_mirrors(value, w),
        OpamFileItem::Section(_, sec) => node matches ManifestNode::Section(n, kids) && n@
            == sec.section_kind@ && kids@.len() == sec.section_item@.len() && forall|i: int|
            0 <= i < kids@.len() ==> node_mirrors(
                sec.section_item@[kids@.len() - 1 - i],
                #[trigger] kids@[i],
            ),
    }
}

/// `nodes` are the top-level `items` in this library's terms.
pub open spec fn tree_mirrors(items: Seq<OpamFileItem>, nodes: Seq<ManifestNode>) -> bool {
    &&& nodes.len() == items.len()
    &&& forall|i: int| 0 <= i < nodes.len() ==> node_mirrors(items[i], #[trigger] nodes[i])
}

fn value_from(v: &Value) -> (r: ManifestValue)
    ensures
        value_mirrors(*v, r),
{
    match &v.kind {
        ValueKind::String(s) => ManifestValue::Text(s.clone()),
        _ => ManifestValue::Other,
    }
}

proof fn lemma_child_decreases(item: OpamFileItem, k: int)
    ensures
        match item {
            OpamFileItem::Section(_, sec) => 0 <= k < sec.section_item@.len() ==> decreases_to!(
                item => sec.section_item@[k]),
            _ => true,
        },
{
    match item {
        OpamFileItem::Section(_, sec) => {
            if 0 <= k < sec.section_item@.len() {
                assert(decreases_to!(item => sec));
                assert(decreases_to!(sec => sec.section_item));
                assert(decreases_to!(sec.section_item => sec.section_item@));
                assert(decreases_to!(sec.section_item@ => sec.section_item@[k]));
            }
        },
        _ => {},
    }
}

fn node_from(item: &OpamFileItem) -> (r: ManifestNode)
    ensures
        node_mirrors(*item, r),
    decreases *item,
{
    match item {
        OpamFileItem::Variable(_, name, value) => ManifestNode::Variable(
            name.clone(),
            value_from(value),
        ),
        OpamFileItem::Section(_, sec) => {
            let n = sec.section_item.len();
            let mut kids: Vec<ManifestNode> = Vec::new();
            let mut i: usize = 0;
            while i < n
                invariant
                    *item matches OpamFileItem::Section(_, s) && s == *sec,
                    n == sec.section_item@.len(),
                    i <= n,
                    kids@.len() == i,
                    forall|j: int|
                        0 <= j < i ==> node_mirrors(sec.section_item@[n - 1 - j], #[trigger] kids@[j]),
                decreases n - i,
            {
                proof {
                    lemma_child_decreases(*item, n - 1 - i);
                }
                let child = node_from(&sec.section_item[n - 1 - i]);
                kids.push(child);
                i += 1;
            }
            ManifestNode::Section(sec.section_kind.clone(), kids)
        },
    }
}


fn nodes_from(items: &Vec<OpamFileItem>) -> (r: Vec<ManifestNode>)
    ensures
        tree_mirrors(items@, r@),
{
    let mut nodes: Vec<ManifestNode> = Vec::new();
    let mut i: usize = 0;
    while i < items.len()
        invariant
            i <= items@.len(),
            nodes@.len() == i,
            forall|j: int| 0 <= j < i ==> node_mirrors(items@[j], #[trigger] nodes@[j]),
        decreases items@.len() - i,
    {
        nodes.push(node_from(&items[i]));
        i += 1;
    }
    nodes
}

/// Parses manifest text into its top-level nodes, in document order. Text that the
/// scan refuses is reported as malformed without being parsed.
pub fn parse_manifest(text: &str) -> (r: Result<Vec<ManifestNode>, ResolveError>)
    ensures
        !parser_safe(text@) ==> r == Err::<Vec<ManifestNode>, ResolveError>(
            ResolveError::MalformedManifest,
        ),
        parser_safe(text@) ==> match opam_parse(text@) {
            None => r == Err::<Vec<ManifestNode>, ResolveError>(ResolveError::MalformedManifest),
            Some(f) => r matches Ok(nodes) && tree_mirrors(f.file_contents@, nodes@),
        },
{
    if !is_parser_safe(text) {
        return Err(ResolveError::MalformedManifest);
    }
    match parse_opam(text) {
        Err(_) => Err(ResolveError::MalformedManifest),
        Ok(f) => Ok(nodes_from(&f.file_contents)),
    }
}

pub open spec fn checksum_key() -> Seq<char> {
    seq!['c', 'h', 'e', 'c', 'k', 's', 'u', 'm']
}

pub open spec fn src_key() -> Seq<char> {
    seq!['s', 'r', 'c']
}

/// A section qualifies when its first two children are both variables.
pub open spec fn qualifies(node: ManifestNode) -> bool {
    node matches ManifestNode::Section(_, kids) && kids@.len() >= 2 && kids@[0] is Variable
        && kids@[1] is Variable
}

/// The string held by the first variable named `key`; `None` where there is no such
/// variable or its value is not a string.
pub open spec fn lookup_text(kids: Seq<ManifestNode>, key: Seq<char>) -> Option<Seq<char>>
    decreases kids.len(),
{
    if kids.len() == 0 {
        None
    } else {
        match kids[0] {
            ManifestNode::Variable(name, value) if name@ == key => match value {
                ManifestValue::Text(t) => Some(t@),
                ManifestValue::Other => None,
            },
            _ => lookup_text(kids.drop_first(), key),
        }
    }
}

/// A character that may stand in a URL's scheme.
pub open spec fn is_scheme_char(c: char) -> bool {
    ('a' <= c && c <= 'z') || ('A' <= c && c <= 'Z') || ('0' <= c && c <= '9') || c == '+'
        || c == '-' || c == '.'
}

/// `k` is where the scheme of `u` ends: `u` starts with a letter, then scheme
/// characters up to `k`, then `://` and at least one more character.
pub open spec fn is_scheme_end(u: Seq<char>, k: int) -> bool {
    &&& 0 < k
    &&& k + 3 < u.len()
    &&& (('a' <= u[0] && u[0] <= 'z') || ('A' <= u[0] && u[0] <= 'Z'))
    &&& forall|j: int| 0 <= j < k ==> is_scheme_char(#[trigger] u[j])
    &&& u[k] == ':' && u[k + 1] == '/' && u[k + 2] == '/'
}

/// A non-empty absolute location: `<scheme>://<rest>`.
pub open spec fn is_absolute_url(u: Seq<char>) -> bool {
    exists|k: int| is_scheme_end(u, k)
}

/// A checksum of the form `<algorithm>=<digest>` with both parts non-empty.
pub open spec fn is_checksum_form(c: Seq<char>) -> bool {
    has_separator(c) && separator_index(c) > 0 && separator_index(c) + 1 < c.len()
}

/// A pair that may stand in an artifact descriptor.
pub open spec fn pair_wf(checksum: Seq<char>, url: Seq<char>) -> bool {
    is_checksum_form(checksum) && is_absolute_url(url)
}

pub open spec fn descriptor_wf(d: ArtifactDescriptor) -> bool {
    pair_wf(d.checksum@, d.url@)
}

/// The `(checksum, url)` pair that one top-level node offers: a qualifying section whose
/// `checksum` and `src` variables, looked up by name, are strings forming a valid pair.
pub open spec fn section_descriptor(node: ManifestNode) -> Option<(Seq<char>, Seq<char>)> {
    match node {
        ManifestNode::Section(_, kids) => if qualifies(node) {
            match (lookup_text(kids@, checksum_key()), lookup_text(kids@, src_key())) {
                (Some(c), Some(u)) => if pair_wf(c, u) {
                    Some((c, u))
                } else {
                    None
                },
                _ => None,
            }
        } else {
            None
        },
        ManifestNode::Variable(_, _) => None,
    }
}

/// The `(checksum, url)` pair that a manifest describes: that of the first top-level
/// section that offers one, in document order.
pub open spec fn descriptor_of(nodes: Seq<ManifestNode>) -> Option<(Seq<char>, Seq<char>)>
    decreases nodes.len(),
{
    if nodes.len() == 0 {
        None
    } else {
        match section_descriptor(nodes[0]) {
            Some(p) => Some(p),
            None => descriptor_of(nodes.drop_first()),
        }
    }
}

/// `r` is the extraction result that `descriptor_of` calls for.
pub open spec fn extraction_agrees(
    r: Result<ArtifactDescriptor, ResolveError>,
    expected: Option<(Seq<char>, Seq<char>)>,
) -> bool {
    match expected {
        Some((c, u)) => r matches Ok(d) && d.checksum@ == c && d.url@ == u,
        None => r == Err::<ArtifactDescriptor, ResolveError>(ResolveError::DescriptorNotFound),
    }
}

fn is_qualifying(node: &ManifestNode) -> (r: bool)
    ensures
        r == qualifies(*node),
{
    match node {
        ManifestNode::Section(_, kids) => {
            kids.len() >= 2 && matches!(kids[0], ManifestNode::Variable(_, _)) && matches!(
                kids[1],
                ManifestNode::Variable(_, _)
            )
        },
        ManifestNode::Variable(_, _) => false,
    }
}

fn find_text(kids: &Vec<ManifestNode>, key: &str) -> (r: Option<String>)
    ensures
        match lookup_text(kids@, key@) {
            Some(t) => r matches Some(s) && s@ == t,
            None => r is None,
        },
{
    let mut i: usize = 0;
    assert(kids@.skip(0) =~= kids@);
    while i < kids.len()
        invariant
            i <= kids@.len(),
            lookup_text(kids@, key@) == lookup_text(kids@.skip(i as int), key@),
        decreases kids@.len() - i,
    {
        assert(kids@.skip(i as int)[0] == kids@[i as int]);
        assert(kids@.skip(i as int).drop_first() =~= kids@.skip(i + 1));
        match &kids[i] {
            ManifestNode::Variable(name, value) => {
                if same_text(name.as_str(), key) {
                    return match value {
                        ManifestValue::Text(t) => Some(t.clone()),
                        ManifestValue::Other => None,
                    };
                }
            },
            ManifestNode::Section(_, _) => {},
        }
        i += 1;
    }
    assert(kids@.skip(i as int).len() == 0);
    None
}

fn is_checksum_text(c: &str) -> (r: bool)
    ensures
        r == is_checksum_form(c@),
{
    match first_separator(c) {
        None => false,
        Some(i) => {
            proof {
                lemma_first_separator_unique(c@, i as int);
            }
            i > 0 && i < c.unicode_len() - 1
        },
    }
}

fn is_scheme_char_exec(c: char) -> (r: bool)
    ensures
        r == is_scheme_char(c),
{
    ('a' <= c && c <= 'z') || ('A' <= c && c <= 'Z') || ('0' <= c && c <= '9') || c == '+'
        || c == '-' || c == '.'
}

fn is_absolute_url_text(u: &str) -> (r: bool)
    ensures
        r == is_absolute_url(u@),
{
    let n = u.unicode_len();
    let mut k: usize = 0;
    while k < n && is_scheme_char_exec(u.get_char(k))
        invariant
            n == u@.len(),
            k <= n,
            forall|j: int| 0 <= j < k ==> is_scheme_char(#[trigger] u@[j]),
        decreases n - k,
    {
        k += 1;
    }
    if k == 0 || n < 4 || k >= n - 3 {
        proof {
            assert forall|m: int| !is_scheme_end(u@, m) by {
                if is_scheme_end(u@, m) {
                    if m < k {
                        assert(is_scheme_char(u@[m]));
                    } else if m > k {
                        assert(is_scheme_char(u@[k as int]));
                    }
                }
            }
        }
        return false;
    }
    let first = u.get_char(0);
    let r = (('a' <= first && first <= 'z') || ('A' <= first && first <= 'Z')) && u.get_char(k)
        == ':' && u.get_char(k + 1) == '/' && u.get_char(k + 2) == '/';
    proof {
        if r {
            assert(is_scheme_end(u@, k as int));
        } else {
            assert forall|m: int| !is_scheme_end(u@, m) by {
                if is_scheme_end(u@, m) {
                    if m < k {
                        assert(is_scheme_char(u@[m]));
                    } else if m > k {
                        assert(is_scheme_char(u@[k as int]));
                    }
                }
            }
        }
    }
    r
}

fn node_descriptor(node: &ManifestNode) -> (r: Option<ArtifactDescriptor>)
    ensures
        match section_descriptor(*node) {
            Some((c, u)) => r matches Some(d) && d.checksum@ == c && d.url@ == u,
            None => r is None,
        },
{
    if !is_qualifying(node) {
        return None;
    }
    match node {
        ManifestNode::Section(_, kids) => {
            let checksum_name = "checksum";
            let src_name = "src";
            proof {
                reveal_strlit("checksum");
                reveal_strlit("src");
                assert(checksum_name@ =~= checksum_key());
                assert(src_name@ =~= src_key());
            }
            match (find_text(kids, checksum_name), find_text(kids, src_name)) {
                (Some(checksum), Some(url)) => {
                    if is_checksum_text(checksum.as_str()) && is_absolute_url_text(url.as_str()) {
                        Some(ArtifactDescriptor { checksum, url })
                    } else {
                        None
                    }
                },
                _ => None,
            }
        },
        ManifestNode::Variable(_, _) => None,
    }
}

/// Finds the artifact descriptor among a manifest's top-level nodes.
pub fn extract_descriptor(nodes: &Vec<ManifestNode>) -> (r: Result<ArtifactDescriptor, ResolveError>)
    ensures
        extraction_agrees(r, descriptor_of(nodes@)),
        r matches Ok(d) ==> descriptor_wf(d),
{
    let mut i: usize = 0;
    assert(nodes@.skip(0) =~= nodes@);
    while i < nodes.len()
        invariant
            i <= nodes@.len(),
            descriptor_of(nodes@) == descriptor_of(nodes@.skip(i as int)),
        decreases nodes@.len() - i,
    {
        assert(nodes@.skip(i as int)[0] == nodes@[i as int]);
        assert(nodes@.skip(i as int).drop_first() =~= nodes@.skip(i + 1));
        match node_descriptor(&nodes[i]) {
            Some(d) => return Ok(d),
            None => {},
        }
        i += 1;
    }
    assert(nodes@.skip(i as int).len() == 0);
    Err(ResolveError::DescriptorNotFound)
}

/// Two nodes that extraction cannot tell apart at the level of a section's children.
pub open spec fn same_shape(x: ManifestNode, y: ManifestNode) -> bool {
    match (x, y) {
        (ManifestNode::Variable(n, v), ManifestNode::Variable(m, w)) => n@ == m@ && match (v, w) {
            (ManifestValue::Text(s), ManifestValue::Text(t)) => s@ == t@,
            (ManifestValue::Other, ManifestValue::Other) => true,
            _ => false,
        },
        (ManifestNode::Section(_, _), ManifestNode::Section(_, _)) => true,
        _ => false,
    }
}

pub open spec fn pairwise_same_shape(a: Seq<ManifestNode>, b: Seq<ManifestNode>) -> bool {
    &&& a.len() == b.len()
    &&& forall|i: int| 0 <= i < a.len() ==> same_shape(#[trigger] a[i], b[i])
}

/// Two top-level nodes that extraction cannot tell apart.
pub open spec fn same_top(x: ManifestNode, y: ManifestNode) -> bool {
    match (x, y) {
        (ManifestNode::Variable(_, _), ManifestNode::Variable(_, _)) => true,
        (ManifestNode::Section(_, k), ManifestNode::Section(_, l)) => pairwise_same_shape(k@, l@),
        _ => false,
    }
}

proof fn lemma_mirrors_same_top(item: OpamFileItem, x: ManifestNode, y: ManifestNode)
    requires
        node_mirrors(item, x),
        node_mirrors(item, y),
    ensures
        same_top(x, y),
{
    match (item, x, y) {
        (OpamFileItem::Section(_, sec), ManifestNode::Section(_, k), ManifestNode::Section(_, l)) => {
            let n = sec.section_item@.len();
            assert forall|i: int| 0 <= i < k@.len() implies same_shape(#[trigger] k@[i], l@[i]) by {
                assert(node_mirrors(sec.section_item@[n - 1 - i], k@[i]));
                assert(node_mirrors(sec.section_item@[n - 1 - i], l@[i]));
            }
        },
        _ => {},
    }
}

proof fn lemma_lookup_agrees(a: Seq<ManifestNode>, b: Seq<ManifestNode>, key: Seq<char>)
    requires
        pairwise_same_shape(a, b),
    ensures
        lookup_text(a, key) == lookup_text(b, key),
    decreases a.len(),
{
    if a.len() > 0 {
        assert(same_shape(a[0], b[0]));
        assert forall|i: int| 0 <= i < a.len() - 1 implies same_shape(
            #[trigger] a.drop_first()[i],
            b.drop_first()[i],
        ) by {
            assert(same_shape(a[i + 1], b[i + 1]));
        }
        lemma_lookup_agrees(a.drop_first(), b.drop_first(), key);
    }
}

proof fn lemma_descriptor_agrees(a: Seq<ManifestNode>, b: Seq<ManifestNode>)
    requires
        a.len() == b.len(),
        forall|i: int| 0 <= i < a.len() ==> same_top(#[trigger] a[i], b[i]),
    ensures
        descriptor_of(a) == descriptor_of(b),
    decreases a.len(),
{
    if a.len() > 0 {
        assert(same_top(a[0], b[0]));
        match (a[0], b[0]) {
            (ManifestNode::Section(_, k), ManifestNode::Section(_, l)) => {
                if k@.len() >= 2 {
                    assert(same_shape(k@[0], l@[0]));
                    assert(same_shape(k@[1], l@[1]));
                }
                lemma_lookup_agrees(k@, l@, checksum_key());
                lemma_lookup_agrees(k@, l@, src_key());
            },
            _ => {},
        }
        assert(section_descriptor(a[0]) == section_descriptor(b[0]));
        assert forall|i: int| 0 <= i < a.len() - 1 implies same_top(
            #[trigger] a.drop_first()[i],
            b.drop_first()[i],
        ) by {
            assert(same_top(a[i + 1], b[i + 1]));
        }
        lemma_descriptor_agrees(a.drop_first(), b.drop_first());
    }
}

/// Every tree that mirrors the same parsed file yields the same descriptor.
pub proof fn lemma_mirrors_agree(items: Seq<OpamFileItem>, a: Seq<ManifestNode>, b: Seq<ManifestNode>)
    requires
        tree_mirrors(items, a),
        tree_mirrors(items, b),
    ensures
        descriptor_of(a) == descriptor_of(b),
{
    assert forall|i: int| 0 <= i < a.len() implies same_top(#[trigger] a[i], b[i]) by {
        lemma_mirrors_same_top(items[i], a[i], b[i]);
    }
    lemma_descriptor_agrees(a, b);
}

/// The descriptor of a parsed file: that of the library's tree for it, which every
/// tree that mirrors the file agrees on.
pub open spec fn file_descriptor(f: OpamFile) -> Option<(Seq<char>, Seq<char>)> {
    descriptor_of(choose|nodes: Seq<ManifestNode>| tree_mirrors(f.file_contents@, nodes))
}

/// What extraction makes of manifest text: the `(checksum, url)` pair, or why there is none.
pub open spec fn manifest_outcome(text: Seq<char>) -> Result<(Seq<char>, Seq<char>), ResolveError> {
    if !parser_safe(text) {
        Err(ResolveError::MalformedManifest)
    } else {
        match opam_parse(text) {
            None => Err(ResolveError::MalformedManifest),
            Some(f) => match file_descriptor(f) {
                Some(p) => Ok(p),
                None => Err(ResolveError::DescriptorNotFound),
            },
        }
    }
}

/// Parses manifest text and finds the artifact descriptor in it.
pub fn descriptor_from_manifest(text: &str) -> (r: Result<ArtifactDescriptor, ResolveError>)
    ensures
        match manifest_outcome(text@) {
            Ok((c, u)) => r matches Ok(d) && d.checksum@ == c && d.url@ == u,
            Err(e) => r == Err::<ArtifactDescriptor, ResolveError>(e),
        },
        r matches Ok(d) ==> descriptor_wf(d),
{
    let nodes = parse_manifest(text)?;
    let r = extract_descriptor(&nodes);
    proof {
        if let Some(f) = opam_parse(text@) {
            let chosen = choose|other: Seq<ManifestNode>| tree_mirrors(f.file_contents@, other);
            assert(tree_mirrors(f.file_contents@, nodes@));
            lemma_mirrors_agree(f.file_contents@, nodes@, chosen);
        }
    }
    r
}

/// `node` is the variable `key: "value"`.
pub open spec fn is_text_variable(node: ManifestNode, key: Seq<char>, value: Seq<char>) -> bool {
    node matches ManifestNode::Variable(name, ManifestValue::Text(t)) && name@ == key && t@
        == value
}

proof fn lemma_descriptor_at(nodes: Seq<ManifestNode>, i: int)
    requires
        0 <= i < nodes.len(),
        section_descriptor(nodes[i]) is Some,
        forall|j: int| 0 <= j < i ==> #[trigger] section_descriptor(nodes[j]) is None,
    ensures
        descriptor_of(nodes) == section_descriptor(nodes[i]),
    decreases i,
{
    if i > 0 {
        let rest = nodes.drop_first();
        assert forall|j: int| 0 <= j < i - 1 implies #[trigger] section_descriptor(rest[j]) is None by {
            assert(rest[j] == nodes[j + 1]);
        }
        assert(section_descriptor(nodes[0]) is None);
        lemma_descriptor_at(rest, i - 1);
        assert(rest[i - 1] == nodes[i]);
    }
}

/// Where a qualifying section begins with a `checksum` and a `src` variable, in either
/// order, holding a well-formed pair of strings, and no section before it offers a
/// descriptor, the descriptor holds exactly those two strings.
pub proof fn lemma_descriptor_from_section(
    nodes: Seq<ManifestNode>,
    i: int,
    checksum: Seq<char>,
    url: Seq<char>,
)
    requires
        0 <= i < nodes.len(),
        forall|j: int| 0 <= j < i ==> #[trigger] section_descriptor(nodes[j]) is None,
        pair_wf(checksum, url),
        nodes[i] matches ManifestNode::Section(_, kids) && kids@.len() >= 2 && ((
        is_text_variable(kids@[0], checksum_key(), checksum) && is_text_variable(
            kids@[1],
            src_key(),
            url,
        )) || (is_text_variable(kids@[0], src_key(), url) && is_text_variable(
            kids@[1],
            checksum_key(),
            checksum,
        ))),
    ensures
        descriptor_of(nodes) == Some((checksum, url)),
{
    let node = nodes[i];
    match node {
        ManifestNode::Section(_, kids) => {
            let k = kids@;
            assert(checksum_key().len() != src_key().len());
            assert(k.drop_first()[0] == k[1]);
            reveal_with_fuel(lookup_text, 2);
            assert(lookup_text(k, checksum_key()) == Some(checksum));
            assert(lookup_text(k, src_key()) == Some(url));
            assert(section_descriptor(node) == Some((checksum, url)));
        },
        _ => {},
    }
    lemma_descriptor_at(nodes, i);
}

/// A manifest without a qualifying section yields no descriptor.
pub proof fn lemma_no_qualifying_section(nodes: Seq<ManifestNode>)
    requires
        forall|j: int| 0 <= j < nodes.len() ==> !qualifies(#[trigger] nodes[j]),
    ensures
        descriptor_of(nodes) is None,
    decreases nodes.len(),
{
    if nodes.len() > 0 {
        let rest = nodes.drop_first();
        assert forall|j: int| 0 <= j < rest.len() implies !qualifies(#[trigger] rest[j]) by {
            assert(rest[j] == nodes[j + 1]);
        }
        lemma_no_qualifying_section(rest);
        assert(!qualifies(nodes[0]));
    }
}

/// Only the first section that offers a descriptor counts: the sections after it, and
/// whether they offer one, change nothing.
pub proof fn lemma_first_section_wins(nodes: Seq<ManifestNode>, later: Seq<ManifestNode>, i: int)
    requires
        0 <= i < nodes.len(),
        section_descriptor(nodes[i]) is Some,
        forall|j: int| 0 <= j < i ==> #[trigger] section_descriptor(nodes[j]) is None,
    ensures
        descriptor_of(nodes) == section_descriptor(nodes[i]),
        descriptor_of(nodes.take(i + 1) + later) == descriptor_of(nodes),
{
    lemma_descriptor_at(nodes, i);
    let other = nodes.take(i + 1) + later;
    assert forall|j: int| 0 <= j < i implies #[trigger] section_descriptor(other[j]) is None by {
        assert(other[j] == nodes[j]);
    }
    assert(other[i] == nodes[i]);
    lemma_descriptor_at(other, i);
}

} // verus!
