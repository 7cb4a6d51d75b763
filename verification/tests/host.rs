use nearly_linear::host::{path_eq, HostContext, TraitDef, TraitImpl, TraitPath};
use nearly_linear::resolver::CapabilityResolver;

fn table() -> HostContext {
    HostContext {
        traits: vec![
            TraitDef { path: TraitPath { segments: vec![1, 2] }, id: 11 },
            TraitDef { path: TraitPath { segments: vec![1, 3] }, id: 12 },
        ],
        impls: vec![
            TraitImpl { ty: 100, trait_id: 11 },
            TraitImpl { ty: 100, trait_id: 12 },
            TraitImpl { ty: 200, trait_id: 12 },
        ],
    }
}

#[test]
fn trait_lookup_finds_the_matching_path() {
    let cx = table();
    assert_eq!(cx.get_trait_def_id(&TraitPath { segments: vec![1, 2] }), Some(11));
    assert_eq!(cx.get_trait_def_id(&TraitPath { segments: vec![1, 3] }), Some(12));
}

#[test]
fn trait_lookup_reports_absence_as_none() {
    let cx = table();
    assert_eq!(cx.get_trait_def_id(&TraitPath { segments: vec![9, 9] }), None);
    assert_eq!(cx.get_trait_def_id(&TraitPath { segments: vec![1] }), None);
}

#[test]
fn implements_trait_is_a_membership_test() {
    let cx = table();
    assert!(cx.implements_trait(100, 11));
    assert!(cx.implements_trait(100, 12));
    assert!(cx.implements_trait(200, 12));
    assert!(!cx.implements_trait(200, 11));
    assert!(!cx.implements_trait(300, 11));
}

#[test]
fn path_eq_compares_segment_for_segment() {
    let a = TraitPath { segments: vec![1, 2, 3] };
    let b = TraitPath { segments: vec![1, 2, 3] };
    let shorter = TraitPath { segments: vec![1, 2] };
    let other = TraitPath { segments: vec![1, 2, 4] };
    assert!(path_eq(&a, &b));
    assert!(!path_eq(&a, &shorter));
    assert!(!path_eq(&a, &other));
    assert!(path_eq(
        &TraitPath { segments: vec![] },
        &TraitPath { segments: vec![] }
    ));
}

#[test]
fn resolver_performs_one_lookup_and_memoizes_it() {
    let mut resolver = CapabilityResolver::new();
    let path = TraitPath { segments: vec![1, 2] };
    assert_eq!(resolver.resolve(&table(), &path), Some(11));
    // Even against an emptied table, the first answer is retained.
    let empty = HostContext { traits: vec![], impls: vec![] };
    assert_eq!(resolver.resolve(&empty, &path), Some(11));
}

#[test]
fn resolver_caches_absence_too() {
    let mut resolver = CapabilityResolver::new();
    let path = TraitPath { segments: vec![1, 2] };
    let empty = HostContext { traits: vec![], impls: vec![] };
    assert_eq!(resolver.resolve(&empty, &path), None);
    assert_eq!(resolver.resolve(&table(), &path), None);
}
