use brio_kernel::store::{Access, PrefixPolicy, QueryPolicy, ScopedStore, StoreOp};

#[test]
fn prefix_policy_rewrites_under_scope() {
    let p = PrefixPolicy;
    assert_eq!(
        p.rewrite("tenant", StoreOp::Read { key: "k".to_string() }),
        StoreOp::Read { key: "tenant:k".to_string() }
    );
    assert_eq!(
        p.authorize(
            "t",
            StoreOp::Write {
                key: "a".to_string(),
                value: "v".to_string()
            }
        ),
        Ok(StoreOp::Write {
            key: "t:a".to_string(),
            value: "v".to_string()
        })
    );
    assert_eq!(
        p.rewrite("t", StoreOp::Range { prefix: "".to_string() }),
        StoreOp::Range { prefix: "t:".to_string() }
    );
}

#[test]
fn different_scopes_never_share_a_key() {
    let a = ScopedStore::new("a");
    let b = ScopedStore::new("b");
    let w = a
        .prepare(StoreOp::Write {
            key: "k".to_string(),
            value: "1".to_string(),
        })
        .unwrap();
    let r = b.prepare(StoreOp::Read { key: "k".to_string() }).unwrap();
    let wk = match w {
        StoreOp::Write { key, .. } => key,
        _ => panic!(),
    };
    let rk = match r {
        StoreOp::Read { key } => key,
        _ => panic!(),
    };
    assert_ne!(wk, rk);
    assert_eq!(b.scope_name(), "b");
}

#[test]
fn scope_separator_inside_scope_is_escaped() {
    let p = PrefixPolicy;
    let one = p.rewrite("a", StoreOp::Read { key: "b:k".to_string() });
    let two = p.rewrite("a:b", StoreOp::Read { key: "k".to_string() });
    assert_eq!(one, StoreOp::Read { key: "a:b:k".to_string() });
    assert_eq!(two, StoreOp::Read { key: "a\\:b:k".to_string() });
    assert_ne!(one, two);
    assert_eq!(
        p.rewrite("x\\y", StoreOp::Read { key: "k".to_string() }),
        StoreOp::Read { key: "x\\\\y:k".to_string() }
    );
}

#[test]
fn plan_passes_only_operations_of_the_access_kind() {
    let st = ScopedStore::new("s");
    assert_eq!(
        st.plan(Access::Query, StoreOp::Read { key: "k".to_string() }),
        Ok(Some(StoreOp::Read { key: "s:k".to_string() }))
    );
    assert_eq!(
        st.plan(Access::Execute, StoreOp::Read { key: "k".to_string() }),
        Ok(None)
    );
    assert_eq!(
        st.plan(
            Access::Query,
            StoreOp::Write {
                key: "k".to_string(),
                value: "v".to_string()
            }
        ),
        Ok(None)
    );
    assert_eq!(
        st.plan(
            Access::Execute,
            StoreOp::Write {
                key: "k".to_string(),
                value: "v".to_string()
            }
        ),
        Ok(Some(StoreOp::Write {
            key: "s:k".to_string(),
            value: "v".to_string()
        }))
    );
}
