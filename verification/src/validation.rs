//! Fail-fast checks on method specs, run before anything is emitted, so that
//! a malformed spec is rejected with a descriptive error rather than
//! producing C++ that only fails much later at build time.

use vstd::prelude::*;
use crate::text::{str_eq, to_chars};
use crate::types::{MethodKind, MethodSpec};

verus! {

/// Why a list of method specs was rejected.
#[derive(Debug, Clone, Copy, PartialEq, Eq)]
pub enum ValidationError {
    /// Two methods share this name.
    DuplicateMethodName(&'static str),
    /// The method's category holds an ASCII upper-case letter.
    NonLowercaseCategory { method: &'static str, category: &'static str },
    /// A skipped method lists parameters.
    SkippedWithParams(&'static str),
    /// A `CustomBody` method has no body.
    EmptyCustomBody(&'static str),
    /// A generable method names no OCCT class.
    MissingOcctClass(&'static str),
    /// A parameter of the method has an empty name.
    EmptyParamName(&'static str),
    /// Two parameters of the method share this name.
    DuplicateParamName { method: &'static str, param: &'static str },
}

impl ValidationError {
    /// The human-readable description of the error.
    pub open spec fn spec_message(self) -> Seq<char> {
        match self {
            ValidationError::DuplicateMethodName(n) => "duplicate method name: '"@ + n@ + "'"@,
            ValidationError::NonLowercaseCategory { method, category } => "method '"@ + method@
                + "' has non-lowercase category '"@ + category@ + "'"@,
            ValidationError::SkippedWithParams(n) => "skipped method '"@ + n@
                + "' should have empty params"@,
            ValidationError::EmptyCustomBody(n) => "CustomBody method '"@ + n@
                + "' has empty setup_code"@,
            ValidationError::MissingOcctClass(n) => "generable method '"@ + n@
                + "' is missing occt_class"@,
            ValidationError::EmptyParamName(n) => "method '"@ + n@
                + "' has an empty parameter name"@,
            ValidationError::DuplicateParamName { method, param } => "method '"@ + method@
                + "' has duplicate parameter name '"@ + param@ + "'"@,
        }
    }

    /// Returns the human-readable description of the error.
    pub fn message(&self) -> (r: String)
        ensures
            r@ == self.spec_message(),
    {
        match self {
            ValidationError::DuplicateMethodName(n) => {
                let mut s = "duplicate method name: '".to_owned();
                s.append(n);
                s.append("'");
                s
            },
            ValidationError::NonLowercaseCategory { method, category } => {
                let mut s = "method '".to_owned();
                s.append(method);
                s.append("' has non-lowercase category '");
                s.append(category);
                s.append("'");
                s
            },
            ValidationError::SkippedWithParams(n) => {
                let mut s = "skipped method '".to_owned();
                s.append(n);
                s.append("' should have empty params");
                s
            },
            ValidationError::EmptyCustomBody(n) => {
                let mut s = "CustomBody method '".to_owned();
                s.append(n);
                s.append("' has empty setup_code");
                s
            },
            ValidationError::MissingOcctClass(n) => {
                let mut s = "generable method '".to_owned();
                s.append(n);
                s.append("' is missing occt_class");
                s
            },
            ValidationError::EmptyParamName(n) => {
                let mut s = "method '".to_owned();
                s.append(n);
                s.append("' has an empty parameter name");
                s
            },
            ValidationError::DuplicateParamName { method, param } => {
                let mut s = "method '".to_owned();
                s.append(method);
                s.append("' has duplicate parameter name '");
                s.append(param);
                s.append("'");
                s
            },
        }
    }
}

/// `s` holds an ASCII upper-case letter, i.e. differs from its ASCII
/// lower-case form.
pub open spec fn has_ascii_upper(s: Seq<char>) -> bool {
    exists|i: int| 0 <= i < s.len() && 'A' <= #[trigger] s[i] <= 'Z'
}

/// The methods whose body is built from a template around an OCCT class.
pub open spec fn is_generable(k: MethodKind) -> bool {
    k == MethodKind::SimpleShape || k == MethodKind::BooleanOp || k == MethodKind::FilletLike
        || k == MethodKind::SetupShape
}

/// What the method's kind demands of the rest of the spec.
pub open spec fn kind_error(m: MethodSpec) -> Option<ValidationError> {
    if m.kind == MethodKind::Skip && m.params@.len() != 0 {
        Some(ValidationError::SkippedWithParams(m.name))
    } else if m.kind == MethodKind::CustomBody && m.setup_code@.len() == 0 {
        Some(ValidationError::EmptyCustomBody(m.name))
    } else if is_generable(m.kind) && m.occt_class@.len() == 0 {
        Some(ValidationError::MissingOcctClass(m.name))
    } else {
        None
    }
}

/// What is wrong with parameter `k` of `m`, given the parameters before it.
pub open spec fn param_error(m: MethodSpec, k: int) -> Option<ValidationError> {
    let p = m.params@[k];
    if p.spec_name().len() == 0 {
        Some(ValidationError::EmptyParamName(m.name))
    } else if exists|j: int| 0 <= j < k && (#[trigger] m.params@[j]).spec_name() == p.spec_name() {
        Some(ValidationError::DuplicateParamName { method: m.name, param: p.name_str() })
    } else {
        None
    }
}

/// The first faulty parameter of `m` at or after index `k`.
pub open spec fn first_param_error(m: MethodSpec, k: int) -> Option<ValidationError>
    decreases m.params@.len() - k,
{
    if k < 0 || k >= m.params@.len() {
        None
    } else if param_error(m, k) is Some {
        param_error(m, k)
    } else {
        first_param_error(m, k + 1)
    }
}

/// What is wrong with method `i`, given the methods before it.
pub open spec fn method_error(ms: Seq<MethodSpec>, i: int) -> Option<ValidationError> {
    let m = ms[i];
    if exists|j: int| 0 <= j < i && (#[trigger] ms[j]).name@ == m.name@ {
        Some(ValidationError::DuplicateMethodName(m.name))
    } else if has_ascii_upper(m.category@) {
        Some(ValidationError::NonLowercaseCategory { method: m.name, category: m.category })
    } else if kind_error(m) is Some {
        kind_error(m)
    } else {
        first_param_error(m, 0)
    }
}

/// The first fault among methods `i..`.
pub open spec fn first_error(ms: Seq<MethodSpec>, i: int) -> Option<ValidationError>
    decreases ms.len() - i,
{
    if i < 0 || i >= ms.len() {
        None
    } else if method_error(ms, i) is Some {
        method_error(ms, i)
    } else {
        first_error(ms, i + 1)
    }
}

/// The outcome of validating `ms`: the first fault, in list order and, within
/// a method, in the order name, category, kind, parameters.
pub open spec fn validation_result(ms: Seq<MethodSpec>) -> Result<(), ValidationError> {
    match first_error(ms, 0) {
        Some(e) => Err(e),
        None => Ok(()),
    }
}

fn contains_name(names: &Vec<&'static str>, name: &str) -> (r: bool)
    ensures
        r == exists|k: int| 0 <= k < names@.len() && (#[trigger] names@[k])@ == name@,
{
    let mut k: usize = 0;
    while k < names.len()
        invariant
            k <= names@.len(),
            forall|t: int| 0 <= t < k ==> (#[trigger] names@[t])@ != name@,
        decreases names.len() - k,
    {
        if str_eq(names[k], name) {
            return true;
        }
        k = k + 1;
    }
    false
}

fn has_ascii_upper_exec(s: &str) -> (r: bool)
    ensures
        r == has_ascii_upper(s@),
{
    let v = to_chars(s);
    let mut i: usize = 0;
    while i < v.len()
        invariant
            v@ == s@,
            i <= v@.len(),
            forall|k: int| 0 <= k < i ==> !('A' <= #[trigger] v@[k] <= 'Z'),
        decreases v.len() - i,
    {
        let c = v[i];
        if 'A' <= c && c <= 'Z' {
            return true;
        }
        i = i + 1;
    }
    false
}

fn check_params(m: &MethodSpec) -> (r: Option<ValidationError>)
    ensures
        r == first_param_error(*m, 0),
{
    let mut names: Vec<&'static str> = Vec::new();
    let mut k: usize = 0;
    while k < m.params.len()
        invariant
            k <= m.params@.len(),
            names@.len() == k,
            forall|t: int| 0 <= t < k ==> (#[trigger] names@[t])@ == m.params@[t].spec_name(),
            first_param_error(*m, 0) == first_param_error(*m, k as int),
        decreases m.params.len() - k,
    {
        let name = m.params[k].name();
        if name.is_empty() {
            proof {
                assert(name@.len() == 0);
            }
            return Some(ValidationError::EmptyParamName(m.name));
        }
        proof {
            assert(name@.len() != 0);
        }
        if contains_name(&names, name) {
            proof {
                let t = choose|t: int| 0 <= t < names@.len() && (#[trigger] names@[t])@ == name@;
                assert(m.params@[t].spec_name() == m.params@[k as int].spec_name());
            }
            return Some(ValidationError::DuplicateParamName { method: m.name, param: name });
        }
        proof {
            assert forall|j: int| 0 <= j < k implies (#[trigger] m.params@[j]).spec_name()
                != m.params@[k as int].spec_name() by {
                assert(names@[j]@ == m.params@[j].spec_name());
            }
        }
        names.push(name);
        k = k + 1;
    }
    None
}

/// Checks `methods` and returns the first fault found, if any.
pub fn validate(methods: &[MethodSpec]) -> (r: Result<(), ValidationError>)
    ensures
        r == validation_result(methods@),
{
    let mut seen: Vec<&'static str> = Vec::new();
    let mut i: usize = 0;
    while i < methods.len()
        invariant
            i <= methods@.len(),
            seen@.len() == i,
            forall|t: int| 0 <= t < i ==> (#[trigger] seen@[t])@ == methods@[t].name@,
            first_error(methods@, 0) == first_error(methods@, i as int),
        decreases methods.len() - i,
    {
        let m = &methods[i];
        let ghost ms = methods@;
        let err: Option<ValidationError>;
        if contains_name(&seen, m.name) {
            proof {
                let t = choose|t: int| 0 <= t < seen@.len() && (#[trigger] seen@[t])@ == m.name@;
                assert(ms[t].name@ == ms[i as int].name@);
            }
            err = Some(ValidationError::DuplicateMethodName(m.name));
        } else {
            proof {
                assert forall|j: int| 0 <= j < i implies (#[trigger] ms[j]).name@
                    != ms[i as int].name@ by {
                    assert(seen@[j]@ == ms[j].name@);
                }
            }
            if has_ascii_upper_exec(m.category) {
                err = Some(
                    ValidationError::NonLowercaseCategory { method: m.name, category: m.category },
                );
            } else {
                let kind_err = match m.kind {
                    MethodKind::Skip => {
                        if m.params.len() != 0 {
                            Some(ValidationError::SkippedWithParams(m.name))
                        } else {
                            None
                        }
                    },
                    MethodKind::CustomBody => {
                        if m.setup_code.is_empty() {
                            proof {
                                assert(m.setup_code@.len() == 0);
                            }
                            Some(ValidationError::EmptyCustomBody(m.name))
                        } else {
                            proof {
                                assert(m.setup_code@.len() != 0);
                            }
                            None
                        }
                    },
                    MethodKind::CustomBodyRaw => None,
                    MethodKind::SimpleShape
                    | MethodKind::BooleanOp
                    | MethodKind::FilletLike
                    | MethodKind::SetupShape => {
                        if m.occt_class.is_empty() {
                            proof {
                                assert(m.occt_class@.len() == 0);
                            }
                            Some(ValidationError::MissingOcctClass(m.name))
                        } else {
                            proof {
                                assert(m.occt_class@.len() != 0);
                            }
                            None
                        }
                    },
                };
                proof {
                    assert(kind_err == kind_error(ms[i as int]));
                }
                if kind_err.is_some() {
                    err = kind_err;
                } else {
                    err = check_params(m);
                }
            }
        }
        proof {
            assert(err == method_error(ms, i as int));
        }
        if let Some(e) = err {
            return Err(e);
        }
        seen.push(m.name);
        i = i + 1;
    }
    Ok(())
}

// ---------------------------------------------------------------------------
// What acceptance means, independently of the order of the checks.
// ---------------------------------------------------------------------------

/// `m` on its own passes every check: lower-case category, what its kind
/// demands, and non-empty, pairwise distinct parameter names.
pub open spec fn method_well_formed(m: MethodSpec) -> bool {
    &&& !has_ascii_upper(m.category@)
    &&& kind_error(m) is None
    &&& forall|k: int| 0 <= k < m.params@.len() ==> (#[trigger] m.params@[k]).spec_name().len() > 0
    &&& forall|j: int, k: int|
        0 <= j < k < m.params@.len() ==> (#[trigger] m.params@[j]).spec_name()
            != (#[trigger] m.params@[k]).spec_name()
}

proof fn lemma_first_param_error_none(m: MethodSpec, k: int)
    requires
        0 <= k <= m.params@.len(),
    ensures
        first_param_error(m, k) is None <==> forall|t: int|
            k <= t < m.params@.len() ==> #[trigger] param_error(m, t) is None,
    decreases m.params@.len() - k,
{
    if k < m.params@.len() {
        lemma_first_param_error_none(m, k + 1);
    }
}

proof fn lemma_first_error_none(ms: Seq<MethodSpec>, i: int)
    requires
        0 <= i <= ms.len(),
    ensures
        first_error(ms, i) is None <==> forall|t: int|
            i <= t < ms.len() ==> #[trigger] method_error(ms, t) is None,
    decreases ms.len() - i,
{
    if i < ms.len() {
        lemma_first_error_none(ms, i + 1);
    }
}

/// A list of specs is accepted exactly when method names are pairwise
/// distinct and every method is well formed on its own; the order of the
/// list matters only for which fault is reported.
pub proof fn lemma_validate_accepts_iff(ms: Seq<MethodSpec>)
    ensures
        validation_result(ms) is Ok <==> (forall|i: int, j: int|
            0 <= i < j < ms.len() ==> (#[trigger] ms[i]).name@ != (#[trigger] ms[j]).name@)
            && (forall|i: int| 0 <= i < ms.len() ==> method_well_formed(#[trigger] ms[i])),
{
    lemma_first_error_none(ms, 0);
    assert forall|i: int| 0 <= i < ms.len() implies (first_param_error(ms[i], 0) is None
        <==> (forall|k: int|
        0 <= k < ms[i].params@.len() ==> (#[trigger] ms[i].params@[k]).spec_name().len() > 0)
        && (forall|j: int, k: int|
        0 <= j < k < ms[i].params@.len() ==> (#[trigger] ms[i].params@[j]).spec_name()
            != (#[trigger] ms[i].params@[k]).spec_name())) by {
        let m = ms[i];
        lemma_first_param_error_none(m, 0);
        if first_param_error(m, 0) is None {
            assert forall|k: int| 0 <= k < m.params@.len() implies (
            #[trigger] m.params@[k]).spec_name().len() > 0 by {
                assert(param_error(m, k) is None);
            }
            assert forall|j: int, k: int| 0 <= j < k < m.params@.len() implies (
            #[trigger] m.params@[j]).spec_name() != (#[trigger] m.params@[k]).spec_name() by {
                assert(param_error(m, k) is None);
            }
        }
    }
    if validation_result(ms) is Ok {
        assert forall|i: int, j: int| 0 <= i < j < ms.len() implies (#[trigger] ms[i]).name@
            != (#[trigger] ms[j]).name@ by {
            assert(method_error(ms, j) is None);
        }
        assert forall|i: int| 0 <= i < ms.len() implies method_well_formed(#[trigger] ms[i]) by {
            assert(method_error(ms, i) is None);
        }
    }
}

} // verus!
