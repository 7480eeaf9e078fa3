use uiua_core::prim::Primitive;

#[test]
fn name_collisions() {
    let all = Primitive::all();
    for a in all.iter().copied() {
        for b in all.iter().copied() {
            if a >= b {
                continue;
            }
            assert_ne!(a.name(), b.name(), "{a:?} and {b:?} have the same name",);
        }
    }
}

#[test]
fn primitive_from_name() {
    for prim in Primitive::non_deprecated().iter().copied() {
        assert_eq!(Primitive::from_name(prim.name()), Some(prim));
    }
    for (name, test) in [
        (
            "from_format_name",
            Primitive::from_format_name as fn(&str) -> Option<Primitive>,
        ),
        ("from_format_name_multi", |name| {
            Primitive::from_format_name_multi(name)
                .unwrap()
                .first()
                .map(|(prim, _)| *prim)
        }),
    ] {
        for prim in Primitive::non_deprecated().iter().copied() {
            let char_test = match prim.glyph() {
                None => prim.name().len(),
                Some(c) if c.is_ascii() => continue,
                Some(_) => 4,
            };
            let short: String = prim.name().chars().take(char_test).collect();
            assert_eq!(test(&short), Some(prim));
        }
        for prim in Primitive::non_deprecated().iter().copied() {
            if matches!(
                prim,
                Primitive::Rand
                    | Primitive::Trace
                    | Primitive::Rectify
                    | Primitive::Recur
                    | Primitive::Parse
            ) {
                continue;
            }
            let char_test = match prim.glyph() {
                None => prim.name().len(),
                Some(c) if c.is_ascii() || prim.ascii().is_some() => continue,
                Some(_) => 3,
            };
            let short: String = prim.name().chars().take(char_test).collect();
            assert_eq!(
                test(&short),
                Some(prim),
                "{} does not format from {:?} with {}",
                prim.display_string(),
                short,
                name
            );
        }
    }
    assert_eq!(Primitive::from_format_name("id"), Some(Primitive::Identity));
}

#[test]
fn mod_from_multiname() {
    assert!(matches!(
        &*Primitive::from_format_name_multi("rev").expect("rev"),
        [(Primitive::Reverse, _)]
    ));
    assert!(matches!(
        &*Primitive::from_format_name_multi("revrev").expect("revrev"),
        [(Primitive::Reverse, _), (Primitive::Reverse, _)]
    ));
    assert!(matches!(
        &*Primitive::from_format_name_multi("tabkee").unwrap(),
        [(Primitive::Table, _), (Primitive::Keep, _)]
    ));
    assert_eq!(Primitive::from_format_name_multi("foo"), None);
}

#[test]
fn from_multiname() {
    assert!(matches!(
        &*Primitive::from_multiname("rev").expect("rev"),
        [(Primitive::Reverse, _)]
    ));
    assert!(matches!(
        &*Primitive::from_multiname("revrev").expect("revrev"),
        [(Primitive::Reverse, _), (Primitive::Reverse, _)]
    ));
    assert!(matches!(
        &*Primitive::from_multiname("tabrepl").unwrap(),
        [(Primitive::Table, _), (Primitive::Replicate, _)]
    ));
    assert_eq!(Primitive::from_multiname("foo"), None);
}

#[test]
fn planet_notation() {
    let gdi = Primitive::from_format_name_multi("gdi").expect("gdi");
    let prims: Vec<Primitive> = gdi.iter().map(|(p, _)| *p).collect();
    assert_eq!(prims, vec![Primitive::Gap, Primitive::Dip, Primitive::Identity]);
    let fgd = Primitive::from_format_name_multi("fgd").expect("fgd");
    let prims: Vec<Primitive> = fgd.iter().map(|(p, _)| *p).collect();
    assert_eq!(prims, vec![Primitive::Fork, Primitive::Gap, Primitive::Dip]);
}

#[test]
fn fixed_aliases() {
    assert_eq!(Primitive::from_format_name("ga"), Some(Primitive::Gap));
    assert_eq!(Primitive::from_format_name("pi"), Some(Primitive::Pi));
    assert_eq!(Primitive::from_format_name("ran"), Some(Primitive::Range));
    assert_eq!(Primitive::from_format_name("tra"), Some(Primitive::Transpose));
    assert_eq!(Primitive::from_format_name("par"), Some(Primitive::Partition));
    assert_eq!(Primitive::from_format_name("re"), None);
    assert_eq!(Primitive::from_format_name("resh"), Some(Primitive::Reshape));
}
