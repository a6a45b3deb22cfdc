use vstd::prelude::*;
use crate::xqts::model::{
    clone_opt, duplicate_namespaces, duplicate_sources, duplicate_opt_env, eq_lit, opt_env_view,
    opt_view, namespaces_view, sources_view, EnvTable, Environment, EnvironmentView, Namespace,
    Source, XmlEvent, XmlEventView, TagEnd,
};
use crate::xqts::leaf::{
    assert_accepts, assert_step, dependency_step, error_accepts, error_step, namespace_data,
    namespace_step, source_accepts, source_data, source_step, test_accepts, test_step,
    AssertState, AssertStateView, DependencyState, DependencyStateView, ErrorState,
    ErrorStateView, NamespaceState, NamespaceStateView, SourceState, SourceStateView, TestState,
    TestStateView, spec_assert_fn_name, ends_element, source_takes, test_takes,
};

verus! {

// ---------------------------------------------------------------- environment

/// Reads an `<environment>` element: its name or reference, and the
/// namespaces and sources it declares.
pub struct EnvironmentState {
    pub reference: Option<String>,
    pub name: Option<String>,
    pub namespace: Option<NamespaceState>,
    pub source: Option<SourceState>,
    pub namespaces: Vec<Namespace>,
    pub sources: Vec<Source>,
}

pub struct EnvironmentStateView {
    pub reference: Option<Seq<char>>,
    pub name: Option<Seq<char>>,
    pub namespace: Option<NamespaceStateView>,
    pub source: Option<SourceStateView>,
    pub namespaces: Seq<(Seq<char>, Seq<char>)>,
    pub sources: Seq<(Seq<char>, Seq<char>)>,
}

impl View for EnvironmentState {
    type V = EnvironmentStateView;

    open spec fn view(&self) -> EnvironmentStateView {
        EnvironmentStateView {
            reference: opt_view(self.reference),
            name: opt_view(self.name),
            namespace: match self.namespace {
                Some(n) => Some(n@),
                None => None,
            },
            source: match self.source {
                Some(n) => Some(n@),
                None => None,
            },
            namespaces: namespaces_view(self.namespaces@),
            sources: sources_view(self.sources@),
        }
    }
}

pub open spec fn empty_environment_state() -> EnvironmentStateView {
    EnvironmentStateView {
        reference: None,
        name: None,
        namespace: None,
        source: None,
        namespaces: seq![],
        sources: seq![],
    }
}

/// A pending namespace element takes the token first: the state after it,
/// and whether the token stops there.
pub open spec fn environment_namespace_stage(s: EnvironmentStateView, t: XmlEventView) -> (EnvironmentStateView, bool) {
    match s.namespace {
        Some(ns) => {
            let (ns2, done) = namespace_step(ns, t);
            if done {
                (EnvironmentStateView {
                    namespace: None,
                    namespaces: match namespace_data(ns2) {
                        Some(d) => s.namespaces.push(d),
                        None => s.namespaces,
                    },
                    ..s
                }, false)
            } else {
                (EnvironmentStateView { namespace: Some(ns2), ..s }, true)
            }
        },
        None => (s, false),
    }
}

/// Then a pending source element.
pub open spec fn environment_source_stage(s: EnvironmentStateView, t: XmlEventView) -> (EnvironmentStateView, bool) {
    match s.source {
        Some(src) => {
            let (src2, done) = source_step(src, t);
            if done {
                (EnvironmentStateView {
                    source: None,
                    sources: match source_data(src2) {
                        Some(d) => s.sources.push(d),
                        None => s.sources,
                    },
                    ..s
                }, false)
            } else {
                (EnvironmentStateView { source: Some(src2), ..s }, true)
            }
        },
        None => (s, false),
    }
}

/// Then the environment element itself.
pub open spec fn environment_own_step(s: EnvironmentStateView, t: XmlEventView) -> (EnvironmentStateView, bool) {
    match t {
        XmlEventView::ElementStart(local) => if local == "namespace"@ {
            (EnvironmentStateView { namespace: Some(NamespaceStateView { prefix: None, uri: None }), ..s }, false)
        } else if local == "source"@ {
            (EnvironmentStateView { source: Some(SourceStateView { role: None, file: None }), ..s }, false)
        } else {
            (s, false)
        },
        XmlEventView::Attribute(local, value) => if local == "ref"@ {
            (EnvironmentStateView { reference: Some(value), ..s }, false)
        } else if local == "name"@ {
            (EnvironmentStateView { name: Some(value), ..s }, false)
        } else {
            (s, false)
        },
        XmlEventView::Close(local) => (s, local == "environment"@),
        XmlEventView::Empty => (s, s.reference is Some),
        _ => (s, false),
    }
}

/// The state after a token, and whether the environment element is done.
pub open spec fn environment_step(s: EnvironmentStateView, t: XmlEventView) -> (EnvironmentStateView, bool) {
    let (s1, stop1) = environment_namespace_stage(s, t);
    if stop1 {
        (s1, false)
    } else {
        let (s2, stop2) = environment_source_stage(s1, t);
        if stop2 {
            (s2, false)
        } else {
            environment_own_step(s2, t)
        }
    }
}

/// A pending source element refuses tokens other than attributes and ends.
pub open spec fn environment_accepts(s: EnvironmentStateView, t: XmlEventView) -> bool {
    let (s1, stop1) = environment_namespace_stage(s, t);
    stop1 || (s1.source is Some ==> source_accepts(t))
}

/// The environment read, at `path`.
pub open spec fn environment_data(s: EnvironmentStateView, path: Seq<char>) -> EnvironmentView {
    EnvironmentView {
        path,
        reference: s.reference,
        name: s.name,
        namespaces: s.namespaces,
        sources: s.sources,
    }
}

impl EnvironmentState {
    pub fn empty() -> (r: EnvironmentState)
        ensures
            r@ == empty_environment_state(),
    {
        let r = EnvironmentState {
            reference: None,
            name: None,
            namespace: None,
            source: None,
            namespaces: Vec::new(),
            sources: Vec::new(),
        };
        assert(r@.namespaces =~= seq![]);
        assert(r@.sources =~= seq![]);
        r
    }

    pub fn to_data(&self, path: String) -> (r: Option<Environment>)
        ensures
            r matches Some(e) && e@ == environment_data(self@, path@),
    {
        Some(Environment {
            path,
            reference: clone_opt(&self.reference),
            name: clone_opt(&self.name),
            namespaces: duplicate_namespaces(&self.namespaces),
            sources: duplicate_sources(&self.sources),
        })
    }

    pub fn event(&mut self, token: &XmlEvent, generated: &mut String) -> (r: bool)
        requires
            environment_accepts(old(self)@, token@),
        ensures
            (final(self)@, r) == environment_step(old(self)@, token@),
            final(generated)@ == old(generated)@,
    {
        let ghost s0 = self@;
        if self.namespace.is_some() {
            let mut ns = self.namespace.take().unwrap();
            if ns.event(token, generated) {
                let ghost old_ns = self.namespaces@;
                match ns.to_data() {
                    Some(d) => {
                        self.namespaces.push(d);
                        assert(namespaces_view(self.namespaces@) =~= namespaces_view(old_ns).push(
                            namespace_data(ns@)->0,
                        ));
                    },
                    None => {},
                }
            } else {
                self.namespace = Some(ns);
                return false;
            }
        }
        assert(self@ == environment_namespace_stage(s0, token@).0);
        let ghost s1 = self@;
        if self.source.is_some() {
            let mut src = self.source.take().unwrap();
            if src.event(token, generated) {
                let ghost old_src = self.sources@;
                match src.to_data() {
                    Some(d) => {
                        self.sources.push(d);
                        assert(sources_view(self.sources@) =~= sources_view(old_src).push(
                            source_data(src@)->0,
                        ));
                    },
                    None => {},
                }
            } else {
                self.source = Some(src);
                return false;
            }
        }
        assert(self@ == environment_source_stage(s1, token@).0);
        match token {
            XmlEvent::ElementStart { local } => {
                if eq_lit(local, "namespace") {
                    self.namespace = Some(NamespaceState::empty());
                } else if eq_lit(local, "source") {
                    self.source = Some(SourceState::empty());
                }
                false
            },
            XmlEvent::Attribute { local, value } => {
                if eq_lit(local, "ref") {
                    self.reference = Some(value.clone());
                } else if eq_lit(local, "name") {
                    self.name = Some(value.clone());
                }
                false
            },
            XmlEvent::TagEnd(TagEnd::Close(local)) => eq_lit(local, "environment"),
            XmlEvent::TagEnd(TagEnd::Empty) => self.reference.is_some(),
            _ => false,
        }
    }
}

// ---------------------------------------------------------------- result

/// Reads the expected `<result>` of a test case and emits its checks.
pub struct ResultState {
    pub not_flag: bool,
    pub all_of_flag: bool,
    pub any_of_flag: bool,
    pub error: Option<ErrorState>,
    pub assert: Option<AssertState>,
}

pub struct ResultStateView {
    pub not_flag: bool,
    pub all_of_flag: bool,
    pub any_of_flag: bool,
    pub error: Option<ErrorStateView>,
    pub assert: Option<AssertStateView>,
}

impl View for ResultState {
    type V = ResultStateView;

    open spec fn view(&self) -> ResultStateView {
        ResultStateView {
            not_flag: self.not_flag,
            all_of_flag: self.all_of_flag,
            any_of_flag: self.any_of_flag,
            error: match self.error {
                Some(e) => Some(e@),
                None => None,
            },
            assert: match self.assert {
                Some(a) => Some(a@),
                None => None,
            },
        }
    }
}

pub open spec fn empty_result_state() -> ResultStateView {
    ResultStateView { not_flag: false, all_of_flag: false, any_of_flag: false, error: None, assert: None }
}

/// Assertions whose check takes no expected value.
pub open spec fn is_plain_assert(name: Seq<char>) -> bool {
    name == "assert-empty"@ || name == "assert-true"@ || name == "assert-false"@
}

/// Assertions whose check takes an expected value.
pub open spec fn is_valued_assert(name: Seq<char>) -> bool {
    name == "assert"@ || name == "assert-eq"@ || name == "assert-count"@ || name == "assert-deep-eq"@
        || name == "assert-permutation"@ || name == "assert-xml"@ || name == "assert-type"@
        || name == "assert-string-value"@ || name == "assert-serialization-error"@
        || name == "serialization-matches"@
}

/// The elements that may start inside a result.
pub open spec fn is_result_child(name: Seq<char>) -> bool {
    name == "all-of"@ || name == "any-of"@ || name == "not"@ || name == "error"@ || is_plain_assert(name)
        || is_valued_assert(name)
}

pub open spec fn result_error_stage(s: ResultStateView, t: XmlEventView) -> (ResultStateView, bool, Seq<char>) {
    match s.error {
        Some(e) => {
            let (e2, done, out) = error_step(e, t);
            if done {
                (ResultStateView { error: None, ..s }, false, out)
            } else {
                (ResultStateView { error: Some(e2), ..s }, true, out)
            }
        },
        None => (s, false, seq![]),
    }
}

pub open spec fn result_assert_stage(s: ResultStateView, t: XmlEventView) -> (ResultStateView, bool, Seq<char>) {
    match s.assert {
        Some(a) => {
            let (a2, done, out) = assert_step(a, t);
            if done {
                (ResultStateView { assert: None, ..s }, false, out)
            } else {
                (ResultStateView { assert: Some(a2), ..s }, true, out)
            }
        },
        None => (s, false, seq![]),
    }
}

pub open spec fn new_assert(name: Seq<char>, have_value: bool, any_of_flag: bool) -> AssertStateView {
    AssertStateView {
        open_tag: name,
        fn_name: spec_assert_fn_name(name),
        have_value,
        any_of_flag,
        assert: seq![],
    }
}

pub open spec fn result_own_step(s: ResultStateView, t: XmlEventView) -> (ResultStateView, bool, Seq<char>) {
    match t {
        XmlEventView::ElementStart(name) => if name == "any-of"@ {
            (ResultStateView { any_of_flag: true, ..s }, false, "        assert!(true\n"@)
        } else if name == "error"@ {
            (ResultStateView { error: Some(ErrorStateView { any_of_flag: s.any_of_flag, code: None }), ..s }, false, seq![])
        } else if is_plain_assert(name) {
            (ResultStateView { assert: Some(new_assert(name, false, s.any_of_flag)), ..s }, false, seq![])
        } else if is_valued_assert(name) {
            (ResultStateView { assert: Some(new_assert(name, true, s.any_of_flag)), ..s }, false, seq![])
        } else {
            (s, false, seq![])
        },
        XmlEventView::Close(local) => if local == "all-of"@ {
            (ResultStateView { all_of_flag: false, ..s }, false, seq![])
        } else if local == "any-of"@ {
            (ResultStateView { any_of_flag: false, ..s }, false, "        );\n"@)
        } else if local == "not"@ {
            (ResultStateView { not_flag: false, ..s }, false, seq![])
        } else if local == "result"@ {
            (s, true, seq![])
        } else {
            (s, false, seq![])
        },
        _ => (s, false, seq![]),
    }
}

/// The state after a token, whether the result element is done, and the
/// text emitted.
pub open spec fn result_step(s: ResultStateView, t: XmlEventView) -> (ResultStateView, bool, Seq<char>) {
    let (s1, stop1, out1) = result_error_stage(s, t);
    if stop1 {
        (s1, false, out1)
    } else {
        let (s2, stop2, out2) = result_assert_stage(s1, t);
        if stop2 {
            (s2, false, out1 + out2)
        } else {
            let (s3, done, out3) = result_own_step(s2, t);
            (s3, done, out1 + out2 + out3)
        }
    }
}

/// A pending error or assertion refuses what it refuses; an unknown child
/// element is refused.
pub open spec fn result_accepts(s: ResultStateView, t: XmlEventView) -> bool {
    &&& s.error matches Some(e) ==> error_accepts(e, t)
    &&& {
        let (s1, stop1, out1) = result_error_stage(s, t);
        !stop1 ==> {
            &&& s1.assert matches Some(a) ==> assert_accepts(a, t)
            &&& {
                let (s2, stop2, out2) = result_assert_stage(s1, t);
                !stop2 ==> (t matches XmlEventView::ElementStart(name) ==> is_result_child(name))
            }
        }
    }
}

fn plain_assert_name(name: &String) -> (r: bool)
    ensures
        r == is_plain_assert(name@),
{
    eq_lit(name, "assert-empty") || eq_lit(name, "assert-true") || eq_lit(name, "assert-false")
}

fn valued_assert_name(name: &String) -> (r: bool)
    ensures
        r == is_valued_assert(name@),
{
    eq_lit(name, "assert") || eq_lit(name, "assert-eq") || eq_lit(name, "assert-count") || eq_lit(name, "assert-deep-eq")
        || eq_lit(name, "assert-permutation") || eq_lit(name, "assert-xml") || eq_lit(name, "assert-type")
        || eq_lit(name, "assert-string-value") || eq_lit(name, "assert-serialization-error")
        || eq_lit(name, "serialization-matches")
}

impl ResultState {
    pub fn empty() -> (r: ResultState)
        ensures
            r@ == empty_result_state(),
    {
        ResultState { not_flag: false, all_of_flag: false, any_of_flag: false, error: None, assert: None }
    }

    pub fn event(&mut self, token: &XmlEvent, generated: &mut String) -> (r: bool)
        requires
            result_accepts(old(self)@, token@),
        ensures
            final(self)@ == result_step(old(self)@, token@).0,
            r == result_step(old(self)@, token@).1,
            final(generated)@ == old(generated)@ + result_step(old(self)@, token@).2,
    {
        let ghost s0 = self@;
        let ghost g0 = generated@;
        if self.error.is_some() {
            let mut e = self.error.take().unwrap();
            if !e.event(token, generated) {
                self.error = Some(e);
                return false;
            }
        }
        assert(self@ == result_error_stage(s0, token@).0);
        assert(generated@ == g0 + result_error_stage(s0, token@).2);
        let ghost s1 = self@;
        let ghost g1 = generated@;
        if self.assert.is_some() {
            let mut a = self.assert.take().unwrap();
            if !a.event(token, generated) {
                self.assert = Some(a);
                assert(generated@ =~= g0 + (result_error_stage(s0, token@).2 + result_assert_stage(s1, token@).2));
                return false;
            }
        }
        assert(self@ == result_assert_stage(s1, token@).0);
        assert(generated@ =~= g0 + (result_error_stage(s0, token@).2 + result_assert_stage(s1, token@).2));
        let ghost g2 = generated@;
        let done = match token {
            XmlEvent::ElementStart { local } => {
                if eq_lit(local, "any-of") {
                    self.any_of_flag = true;
                    generated.append("        assert!(true\n");
                } else if eq_lit(local, "error") {
                    self.error = Some(ErrorState::empty(self.any_of_flag));
                } else if plain_assert_name(local) {
                    self.assert = Some(AssertState::empty(local.clone(), false, self.any_of_flag));
                } else if valued_assert_name(local) {
                    self.assert = Some(AssertState::empty(local.clone(), true, self.any_of_flag));
                }
                false
            },
            XmlEvent::TagEnd(TagEnd::Close(local)) => {
                if eq_lit(local, "all-of") {
                    self.all_of_flag = false;
                    false
                } else if eq_lit(local, "any-of") {
                    self.any_of_flag = false;
                    generated.append("        );\n");
                    false
                } else if eq_lit(local, "not") {
                    self.not_flag = false;
                    false
                } else {
                    eq_lit(local, "result")
                }
            },
            _ => false,
        };
        assert(generated@ =~= g2 + result_own_step(result_assert_stage(s1, token@).0, token@).2);
        done
    }
}

// ---------------------------------------------------------------- test case

/// Reads a `<test-case>` element and emits the generated test function.
pub struct TestCaseState {
    pub dir: String,
    pub envs: EnvTable,
    pub env: Option<Environment>,
    pub spec: Option<String>,
    pub name: Option<String>,
    pub dependency: Option<DependencyState>,
    pub environment: Option<EnvironmentState>,
    pub test: Option<TestState>,
    pub result: Option<ResultState>,
}

pub struct TestCaseStateView {
    pub dir: Seq<char>,
    pub envs: Map<Seq<char>, EnvironmentView>,
    pub env: Option<EnvironmentView>,
    pub spec: Option<Seq<char>>,
    pub name: Option<Seq<char>>,
    pub dependency: Option<DependencyStateView>,
    pub environment: Option<EnvironmentStateView>,
    pub test: Option<TestStateView>,
    pub result: Option<ResultStateView>,
}

impl View for TestCaseState {
    type V = TestCaseStateView;

    open spec fn view(&self) -> TestCaseStateView {
        TestCaseStateView {
            dir: self.dir@,
            envs: self.envs@,
            env: opt_env_view(self.env),
            spec: opt_view(self.spec),
            name: opt_view(self.name),
            dependency: match self.dependency {
                Some(d) => Some(d@),
                None => None,
            },
            environment: match self.environment {
                Some(d) => Some(d@),
                None => None,
            },
            test: match self.test {
                Some(d) => Some(d@),
                None => None,
            },
            result: match self.result {
                Some(d) => Some(d@),
                None => None,
            },
        }
    }
}

/// The environment a finished `<environment ref="..">` selects: the one
/// of that name, if there is one; otherwise the current one stays.
pub open spec fn referenced_environment(
    envs: Map<Seq<char>, EnvironmentView>,
    current: Option<EnvironmentView>,
    reference: Option<Seq<char>>,
) -> Option<EnvironmentView> {
    match reference {
        Some(name) => if envs.dom().contains(name) {
            Some(envs[name])
        } else {
            current
        },
        None => current,
    }
}

pub open spec fn test_case_own_step(s: TestCaseStateView, t: XmlEventView) -> (TestCaseStateView, bool, Seq<char>) {
    match t {
        XmlEventView::ElementStart(local) => if local == "environment"@ {
            (TestCaseStateView { environment: Some(empty_environment_state()), ..s }, false, seq![])
        } else if local == "dependency"@ {
            (TestCaseStateView { dependency: Some(DependencyStateView { t: None, v: None }), ..s }, false, seq![])
        } else if local == "test"@ {
            (TestCaseStateView {
                test: Some(TestStateView {
                    test_name: s.name->0,
                    spec: s.spec,
                    env: s.env,
                    dir: s.dir,
                    file: None,
                    script: seq![],
                }),
                ..s
            }, false, seq![])
        } else if local == "result"@ {
            (TestCaseStateView { result: Some(empty_result_state()), ..s }, false, seq![])
        } else {
            (s, false, seq![])
        },
        XmlEventView::Attribute(local, value) => if local == "name"@ {
            (TestCaseStateView { name: Some(value), ..s }, false, seq![])
        } else {
            (s, false, seq![])
        },
        XmlEventView::Close(local) => if local == "test-case"@ {
            (s, true, "    }\n\n"@)
        } else {
            (s, false, seq![])
        },
        _ => (s, false, seq![]),
    }
}

/// The state after a token, whether the test case is done, and the text
/// emitted. A pending child element takes the token, and the token stops
/// there.
pub open spec fn test_case_step(s: TestCaseStateView, t: XmlEventView) -> (TestCaseStateView, bool, Seq<char>) {
    if s.dependency is Some {
        let (d2, done) = dependency_step(s.dependency->0, t);
        if done {
            (TestCaseStateView {
                dependency: None,
                spec: match (d2.t, d2.v) {
                    (Some(ty), Some(v)) => if ty == "spec"@ {
                        Some(v)
                    } else {
                        s.spec
                    },
                    _ => s.spec,
                },
                ..s
            }, false, seq![])
        } else {
            (TestCaseStateView { dependency: Some(d2), ..s }, false, seq![])
        }
    } else if s.test is Some {
        let (t2, done, out) = test_step(s.test->0, t);
        (TestCaseStateView { test: if done { None } else { Some(t2) }, ..s }, false, out)
    } else if s.environment is Some {
        let (e2, done) = environment_step(s.environment->0, t);
        if done {
            (TestCaseStateView {
                environment: None,
                env: referenced_environment(s.envs, s.env, e2.reference),
                ..s
            }, false, seq![])
        } else {
            (TestCaseStateView { environment: Some(e2), ..s }, false, seq![])
        }
    } else if s.result is Some {
        let (r2, done, out) = result_step(s.result->0, t);
        (TestCaseStateView { result: if done { None } else { Some(r2) }, ..s }, false, out)
    } else {
        test_case_own_step(s, t)
    }
}

/// What the pending child element refuses is refused; a `<test>` before the
/// test case has a name is refused.
pub open spec fn test_case_accepts(s: TestCaseStateView, t: XmlEventView) -> bool {
    if s.dependency is Some {
        source_accepts(t)
    } else if s.test is Some {
        test_accepts(t)
    } else if s.environment is Some {
        environment_accepts(s.environment->0, t)
    } else if s.result is Some {
        result_accepts(s.result->0, t)
    } else {
        t == XmlEventView::ElementStart("test"@) ==> s.name is Some
    }
}

pub open spec fn empty_test_case(dir: Seq<char>, envs: Map<Seq<char>, EnvironmentView>) -> TestCaseStateView {
    TestCaseStateView {
        dir,
        envs,
        env: None,
        spec: None,
        name: None,
        dependency: None,
        environment: None,
        test: None,
        result: None,
    }
}

impl TestCaseState {
    pub fn empty(dir: String, envs: EnvTable) -> (r: TestCaseState)
        ensures
            r@ == empty_test_case(dir@, envs@),
    {
        TestCaseState {
            dir,
            envs,
            env: None,
            spec: None,
            name: None,
            dependency: None,
            environment: None,
            test: None,
            result: None,
        }
    }

    pub fn event(&mut self, token: &XmlEvent, generated: &mut String) -> (r: bool)
        requires
            test_case_accepts(old(self)@, token@),
        ensures
            final(self)@ == test_case_step(old(self)@, token@).0,
            r == test_case_step(old(self)@, token@).1,
            final(generated)@ == old(generated)@ + test_case_step(old(self)@, token@).2,
    {
        let ghost g0 = generated@;
        assert(g0 =~= g0 + seq![]);
        if self.dependency.is_some() {
            let mut state = self.dependency.take().unwrap();
            if state.event(token, generated) {
                match (&state.t, &state.v) {
                    (Some(t), Some(v)) => {
                        if eq_lit(t, "spec") {
                            self.spec = Some(v.clone());
                        }
                    },
                    _ => {},
                }
            } else {
                self.dependency = Some(state);
            }
            return false;
        }
        if self.test.is_some() {
            let mut state = self.test.take().unwrap();
            if !state.event(token, generated) {
                self.test = Some(state);
            }
            return false;
        }
        if self.environment.is_some() {
            let mut state = self.environment.take().unwrap();
            if state.event(token, generated) {
                match state.to_data(String::new()) {
                    Some(env) => match &env.reference {
                        Some(name) => match self.envs.get(name) {
                            Some(e) => {
                                self.env = Some(e);
                            },
                            None => {},
                        },
                        None => {},
                    },
                    None => {},
                }
            } else {
                self.environment = Some(state);
            }
            return false;
        }
        if self.result.is_some() {
            let mut state = self.result.take().unwrap();
            if !state.event(token, generated) {
                self.result = Some(state);
            }
            return false;
        }
        match token {
            XmlEvent::ElementStart { local } => {
                if eq_lit(local, "environment") {
                    self.environment = Some(EnvironmentState::empty());
                } else if eq_lit(local, "dependency") {
                    self.dependency = Some(DependencyState::empty());
                } else if eq_lit(local, "test") {
                    let name = match &self.name {
                        Some(n) => n.clone(),
                        None => String::new(),
                    };
                    self.test = Some(TestState::empty(
                        name,
                        clone_opt(&self.spec),
                        duplicate_opt_env(&self.env),
                        self.dir.clone(),
                    ));
                } else if eq_lit(local, "result") {
                    self.result = Some(ResultState::empty());
                }
                false
            },
            XmlEvent::Attribute { local, value } => {
                if eq_lit(local, "name") {
                    self.name = Some(value.clone());
                }
                false
            },
            XmlEvent::TagEnd(TagEnd::Close(local)) => {
                if eq_lit(local, "test-case") {
                    generated.append("    }\n\n");
                    true
                } else {
                    false
                }
            },
            _ => false,
        }
    }
}

// ---------------------------------------------------------------- refusals

impl EnvironmentState {
    pub fn takes(&self, token: &XmlEvent) -> (r: bool)
        ensures
            r == environment_accepts(self@, token@),
    {
        let stops_in_namespace = self.namespace.is_some() && !ends_element(token);
        if stops_in_namespace {
            true
        } else {
            self.source.is_none() || source_takes(token)
        }
    }
}

impl ResultState {
    pub fn takes(&self, token: &XmlEvent) -> (r: bool)
        ensures
            r == result_accepts(self@, token@),
    {
        let stop1 = match &self.error {
            Some(e) => {
                if !e.takes(token) {
                    return false;
                }
                match token {
                    XmlEvent::Attribute { .. } => true,
                    _ => false,
                }
            },
            None => false,
        };
        if stop1 {
            return true;
        }
        let stop2 = match &self.assert {
            Some(a) => {
                if !a.takes(token) {
                    return false;
                }
                !a.ended_by(token)
            },
            None => false,
        };
        if stop2 {
            return true;
        }
        match token {
            XmlEvent::ElementStart { local } => eq_lit(local, "all-of") || eq_lit(local, "any-of") || eq_lit(local, "not")
                || eq_lit(local, "error") || plain_assert_name(local) || valued_assert_name(local),
            _ => true,
        }
    }
}

impl TestCaseState {
    pub fn takes(&self, token: &XmlEvent) -> (r: bool)
        ensures
            r == test_case_accepts(self@, token@),
    {
        if self.dependency.is_some() {
            source_takes(token)
        } else if self.test.is_some() {
            test_takes(token)
        } else if self.environment.is_some() {
            match &self.environment {
                Some(e) => e.takes(token),
                None => false,
            }
        } else if self.result.is_some() {
            match &self.result {
                Some(e) => e.takes(token),
                None => false,
            }
        } else {
            match token {
                XmlEvent::ElementStart { local } => !eq_lit(local, "test") || self.name.is_some(),
                _ => true,
            }
        }
    }
}

} // verus!
