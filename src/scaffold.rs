use vstd::prelude::*;

use crate::text::same_text;

verus! {

/// The name of a new project's package file: `<name>.opam`.
pub fn opam_file_name(name: &str) -> (r: String)
    ensures
        r@ == name@ + ".opam"@,
{
    let mut r = String::from_str(name);
    r.append(".opam");
    r
}

pub open spec fn dune_project_head() -> Seq<char> {
    "(lang dune 3.14)\n\n(name "@
}

pub open spec fn dune_project_middle() -> Seq<char> {
    ")\n\n(generate_opam_files true)\n\n(source\n(github username/reponame))\n\n(authors \"Author Name\")\n\n(maintainers \"Maintainer Name\")\n\n(license LICENSE)\n\n(documentation https://url/to/documentation)\n\n(package\n(name "@
}

pub open spec fn dune_project_tail() -> Seq<char> {
    ")\n(synopsis \"A short synopsis\")\n(description \"A longer description\")\n(depends ocaml dune)\n(tags\n(topics \"to describe\" your project)))\n\n; See the complete stanza docs at https://dune.readthedocs.io/en/stable/dune-files.html#dune-project\n"@
}

/// The `dune-project` file of a new project called `name`.
pub fn dune_project_text(name: &str) -> (r: String)
    ensures
        r@ == dune_project_head() + name@ + dune_project_middle() + name@ + dune_project_tail(),
{
    let mut r = String::from_str("(lang dune 3.14)\n\n(name ");
    r.append(name);
    r.append(
        ")\n\n(generate_opam_files true)\n\n(source\n(github username/reponame))\n\n(authors \"Author Name\")\n\n(maintainers \"Maintainer Name\")\n\n(license LICENSE)\n\n(documentation https://url/to/documentation)\n\n(package\n(name ",
    );
    r.append(name);
    r.append(
        ")\n(synopsis \"A short synopsis\")\n(description \"A longer description\")\n(depends ocaml dune)\n(tags\n(topics \"to describe\" your project)))\n\n; See the complete stanza docs at https://dune.readthedocs.io/en/stable/dune-files.html#dune-project\n",
    );
    r
}

pub open spec fn compiler_name() -> Seq<char> {
    seq!['o', 'c', 'a', 'm', 'l']
}

/// The declared dependencies that are handed to the compiler: all but the compiler itself.
pub open spec fn kept_packages(names: Seq<String>) -> Seq<Seq<char>>
    decreases names.len(),
{
    if names.len() == 0 {
        seq![]
    } else {
        let kept = kept_packages(names.drop_last());
        if names.last()@ == compiler_name() {
            kept
        } else {
            kept.push(names.last()@)
        }
    }
}

/// The parts joined with `,` between each two.
pub open spec fn comma_joined(parts: Seq<Seq<char>>) -> Seq<char>
    decreases parts.len(),
{
    if parts.len() == 0 {
        seq![]
    } else if parts.len() == 1 {
        parts[0]
    } else {
        comma_joined(parts.drop_last()) + seq![','] + parts.last()
    }
}

/// The `-package` argument of a build: the dependency names other than `ocaml`,
/// joined with commas, in the order given.
pub fn compiler_package_list(names: &Vec<String>) -> (r: String)
    ensures
        r@ == comma_joined(kept_packages(names@)),
{
    let compiler = "ocaml";
    proof {
        reveal_strlit("ocaml");
        assert(compiler@ =~= compiler_name());
    }
    let mut r = String::new();
    let mut any = false;
    let mut i: usize = 0;
    assert(names@.take(0) =~= Seq::<String>::empty());
    while i < names.len()
        invariant
            i <= names@.len(),
            compiler@ == compiler_name(),
            any == (kept_packages(names@.take(i as int)).len() > 0),
            r@ == comma_joined(kept_packages(names@.take(i as int))),
        decreases names@.len() - i,
    {
        let ghost before = kept_packages(names@.take(i as int));
        assert(names@.take(i + 1).drop_last() =~= names@.take(i as int));
        assert(names@.take(i + 1).last() == names@[i as int]);
        if !same_text(names[i].as_str(), compiler) {
            if any {
                r.append(",");
                proof {
                    reveal_strlit(",");
                }
            }
            r.append(names[i].as_str());
            let ghost after = before.push(names@[i as int]@);
            assert(after.drop_last() =~= before);
            assert(r@ =~= comma_joined(after));
            any = true;
        }
        i += 1;
    }
    assert(names@.take(i as int) =~= names@);
    r
}

} // verus!
