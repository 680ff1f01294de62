//! How a Rust function is exported to Java: the symbol name that the JVM looks
//! up for a `package.Class.method` path, which parameters take the `'local`
//! lifetime, and the greeting that the sample entry point answers with.

use vstd::prelude::*;

verus! {

/// A dotted Java path with every `.` replaced by `_`.
pub open spec fn mangle_path(path: Seq<char>) -> Seq<char> {
    path.map_values(|c: char| if c == '.' { '_' } else { c })
}

/// The prefix of every exported JNI symbol.
pub open spec fn java_prefix() -> Seq<char> {
    seq!['J', 'a', 'v', 'a', '_']
}

/// The symbol under which the JVM finds the native method `path`.
pub open spec fn spec_jni_function_name(path: Seq<char>) -> Seq<char> {
    java_prefix() + mangle_path(path)
}

/// The exported name for the Java method at `java_path`: `Java_` followed by
/// the path with each `.` replaced by `_`.
pub fn jni_function_name(java_path: &str) -> (r: String)
    ensures
        r@ == spec_jni_function_name(java_path@),
{
    proof {
        reveal_strlit("Java_");
        reveal_strlit("_");
    }
    let len = java_path.unicode_len();
    let mut out = String::from_str("Java_");
    let mut seg_start: usize = 0;
    let mut i: usize = 0;
    let ghost path = java_path@;
    while i < len
        invariant
            seg_start <= i <= len,
            len == path.len(),
            path == java_path@,
            out@ == java_prefix() + mangle_path(path.subrange(0, seg_start as int)),
            forall|k: int| seg_start <= k < i ==> #[trigger] path[k] != '.',
        decreases len - i,
    {
        let c = java_path.get_char(i);
        if c == '.' {
            let segment = java_path.substring_char(seg_start, i);
            let ghost before = out@;
            out.append(segment);
            out.append("_");
            proof {
                let old_part = path.subrange(0, seg_start as int);
                let new_part = path.subrange(0, i + 1);
                assert(new_part =~= old_part + segment@ + seq!['.']);
                assert(mangle_path(segment@) =~= segment@);
                assert(mangle_path(new_part) =~= mangle_path(old_part) + segment@ + seq!['_']);
                reveal_strlit("_");
                assert("_"@ =~= seq!['_']);
                assert(out@ =~= before + segment@ + seq!['_']);
                assert(out@ =~= java_prefix() + mangle_path(new_part));
            }
            seg_start = i + 1;
        }
        i = i + 1;
    }
    let rest = java_path.substring_char(seg_start, len);
    out.append(rest);
    proof {
        let old_part = path.subrange(0, seg_start as int);
        assert(path =~= old_part + rest@);
        assert(mangle_path(rest@) =~= rest@);
        assert(mangle_path(path) =~= mangle_path(old_part) + rest@);
        assert(out@ =~= java_prefix() + mangle_path(path));
    }
    out
}

/// No exported name holds a `.`, and each keeps the path's length after the
/// five-character `Java_` prefix.
pub proof fn lemma_jni_name_shape(path: Seq<char>)
    ensures
        spec_jni_function_name(path).len() == path.len() + 5,
        spec_jni_function_name(path).subrange(0, 5) == java_prefix(),
        forall|i: int|
            0 <= i < spec_jni_function_name(path).len() ==> #[trigger] spec_jni_function_name(
                path,
            )[i] != '.',
{
    let name = spec_jni_function_name(path);
    assert(name.subrange(0, 5) =~= java_prefix());
    assert forall|i: int| 0 <= i < name.len() implies #[trigger] name[i] != '.' by {
        if i >= 5 {
            assert(name[i] == mangle_path(path)[i - 5]);
        }
    }
}

/// The type of a parameter of an exported function, as far as the export
/// decides on it: a path type and the identifier of its last segment, if the
/// path has one, or any other type.
pub enum JniArgType {
    Path { last_segment: Option<String> },
    Other,
}

/// A parameter of an exported function: the receiver, or a typed parameter.
pub enum JniArg {
    Receiver,
    Typed(JniArgType),
}

/// A typed parameter whose type is a path whose last segment's name begins
/// with `J` (`JNIEnv`, `JClass`, `JString`, ...) gets the `'local` lifetime.
pub open spec fn spec_gets_local_lifetime(arg: JniArg) -> bool {
    match arg {
        JniArg::Typed(JniArgType::Path { last_segment: Some(seg) }) => seg@.len() > 0 && seg@[0]
            == 'J',
        _ => false,
    }
}

/// Whether the export adds the `'local` lifetime to the type of `arg`.
pub fn gets_local_lifetime(arg: &JniArg) -> (r: bool)
    ensures
        r == spec_gets_local_lifetime(*arg),
{
    match arg {
        JniArg::Typed(JniArgType::Path { last_segment: Some(seg) }) => {
            let s = seg.as_str();
            if s.unicode_len() > 0 {
                s.get_char(0) == 'J'
            } else {
                false
            }
        },
        _ => false,
    }
}

/// For each parameter in order, whether its type takes the `'local` lifetime.
pub fn lifetime_plan(args: &Vec<JniArg>) -> (r: Vec<bool>)
    ensures
        r@.len() == args@.len(),
        forall|i: int| 0 <= i < args@.len() ==> r@[i] == spec_gets_local_lifetime(#[trigger] args@[i]),
{
    let mut plan: Vec<bool> = Vec::new();
    let mut i: usize = 0;
    while i < args.len()
        invariant
            i <= args@.len(),
            plan@.len() == i,
            forall|k: int| 0 <= k < i ==> plan@[k] == spec_gets_local_lifetime(#[trigger] args@[k]),
        decreases args@.len() - i,
    {
        plan.push(gets_local_lifetime(&args[i]));
        i = i + 1;
    }
    plan
}

/// The greeting that the sample entry point returns for `name`.
pub open spec fn spec_greeting(name: Seq<char>) -> Seq<char> {
    seq!['h', 'e', 'l', 'l', 'o', ',', ' '] + name + seq!['!']
}

/// `hello, {name}!`
pub fn greeting(name: &str) -> (r: String)
    ensures
        r@ == spec_greeting(name@),
{
    proof {
        reveal_strlit("hello, ");
        reveal_strlit("!");
    }
    let mut out = String::from_str("hello, ");
    out.append(name);
    out.append("!");
    assert(out@ =~= spec_greeting(name@));
    out
}

} // verus!
