//! Reading Java strings through a JNI environment.

use vstd::prelude::*;
use jni::objects::JString;
use jni::JNIEnv;

verus! {

#[verifier::external_type_specification]
#[verifier::external_body]
pub struct ExJNIEnv<'local>(JNIEnv<'local>);

#[verifier::external_type_specification]
#[verifier::external_body]
pub struct ExJString<'local>(JString<'local>);

#[verifier::external_type_specification]
#[verifier::external_body]
pub struct ExJniError(jni::errors::Error);

/// Why a Java string could not be read.
#[derive(PartialEq, Eq, Structural, Clone, Copy, Debug)]
pub enum JniEnvError {
    /// The JVM did not give the string's characters (the object is not a
    /// `java.lang.String`, or a JNI call failed).
    StringUnavailable,
}

/// `JNIEnv::get_string` (jni), with the Java string converted to a Rust
/// `String`. What it gives depends on the JVM, so nothing is claimed of it.
#[verifier::external_body]
fn jni_get_string<'local, 'other_local: 'obj_ref, 'obj_ref>(
    env: &mut JNIEnv<'local>,
    obj: &'obj_ref JString<'other_local>,
) -> (r: Result<String, jni::errors::Error>) {
    env.get_string(obj).map(|s| s.into())
}

/// The string that a lookup gave, or, when it failed, `StringUnavailable`.
pub fn string_from_lookup(lookup: Result<String, jni::errors::Error>) -> (r: Result<
    String,
    JniEnvError,
>)
    ensures
        lookup is Ok <==> r is Ok,
        lookup matches Ok(s) ==> r == Ok::<String, JniEnvError>(s),
        lookup is Err ==> r == Err::<String, JniEnvError>(JniEnvError::StringUnavailable),
{
    match lookup {
        Ok(s) => Ok(s),
        Err(_) => Err(JniEnvError::StringUnavailable),
    }
}

/// Convenience reading of Java strings.
pub trait JNIEnvExt<'local> {
    /// The characters of the Java string `obj`. A string that cannot be read
    /// (a null object, one that is not a `java.lang.String`, or a failed JNI
    /// call) is reported as `Err(StringUnavailable)` rather than by a panic;
    /// a caller that cannot go on without the string stops itself.
    fn string<'other_local: 'obj_ref, 'obj_ref>(
        &mut self,
        obj: &'obj_ref JString<'other_local>,
    ) -> Result<String, JniEnvError>;
}

impl<'local> JNIEnvExt<'local> for JNIEnv<'local> {
    fn string<'other_local: 'obj_ref, 'obj_ref>(
        &mut self,
        obj: &'obj_ref JString<'other_local>,
    ) -> (r: Result<String, JniEnvError>) {
        string_from_lookup(jni_get_string(self, obj))
    }
}

} // verus!
