use edgedb_cli::grammar::{parse, parse_build, parse_filter, parse_shape, parse_specific};
use edgedb_cli::ver::{
    BuildMeta, Channel, Filter, FilterMinor, MinorVersion, ParseError, Query, Specific, Stage,
    Version, VersionSpec,
};

fn stable(major: u32, minor: u32) -> Version {
    Version { specific: Specific { major, minor: MinorVersion::Minor(minor) }, meta: BuildMeta::Local }
}

fn with_minor(major: u32, minor: MinorVersion) -> Version {
    Version { specific: Specific { major, minor }, meta: BuildMeta::Commit(0x1234567) }
}

#[test]
fn parse_major_alone_is_a_filter() {
    assert_eq!(parse("1"), Ok(VersionSpec::Filter(Filter { major: 1, minor: None })));
    assert_eq!(parse("007"), Ok(VersionSpec::Filter(Filter { major: 7, minor: None })));
}

#[test]
fn parse_prefers_filter_over_specific() {
    assert_eq!(
        parse("1.2"),
        Ok(VersionSpec::Filter(Filter { major: 1, minor: Some(FilterMinor::Minor(2)) }))
    );
    assert_eq!(parse_specific("1.2"), Some(Specific { major: 1, minor: MinorVersion::Minor(2) }));
    assert_eq!(
        parse("2.0-rc.3"),
        Ok(VersionSpec::Filter(Filter { major: 2, minor: Some(FilterMinor::Rc(3)) }))
    );
    assert_eq!(parse_specific("2.0-rc.3"), Some(Specific { major: 2, minor: MinorVersion::Rc(3) }));
    assert_eq!(
        parse("2.0-alpha.1"),
        Ok(VersionSpec::Filter(Filter { major: 2, minor: Some(FilterMinor::Alpha(1)) }))
    );
    assert_eq!(
        parse("2.0-beta.10"),
        Ok(VersionSpec::Filter(Filter { major: 2, minor: Some(FilterMinor::Beta(10)) }))
    );
}

#[test]
fn parse_dev_snapshot_is_specific() {
    assert_eq!(parse_filter("3.0-dev.7000"), None);
    assert_eq!(
        parse("3.0-dev.7000"),
        Ok(VersionSpec::Specific(Specific { major: 3, minor: MinorVersion::Dev(7000) }))
    );
}

#[test]
fn parse_build_with_metadata() {
    let expected = Version {
        specific: Specific { major: 1, minor: MinorVersion::Minor(2) },
        meta: BuildMeta::Commit(0xabcdef0),
    };
    assert_eq!(parse("1.2+abcdef0"), Ok(VersionSpec::Build(expected)));
    assert_eq!(parse_build("1.2+abcdef0"), Some(expected));
    assert_eq!(parse_filter("1.2+abcdef0"), None);
    assert_eq!(parse_specific("1.2+abcdef0"), None);
    assert_eq!(
        parse("1.0-dev.5+local"),
        Ok(VersionSpec::Build(Version {
            specific: Specific { major: 1, minor: MinorVersion::Dev(5) },
            meta: BuildMeta::Local,
        }))
    );
    assert_eq!(
        parse("1.0+0000010"),
        Ok(VersionSpec::Build(Version {
            specific: Specific { major: 1, minor: MinorVersion::Minor(0) },
            meta: BuildMeta::Commit(16),
        }))
    );
    assert_eq!(
        parse("1.0+fffffff"),
        Ok(VersionSpec::Build(Version {
            specific: Specific { major: 1, minor: MinorVersion::Minor(0) },
            meta: BuildMeta::Commit(0xfffffff),
        }))
    );
}

#[test]
fn parse_rejects_what_no_grammar_accepts() {
    for text in [
        "", "x", "1.", ".1", "1.2.3", "1.2-rc.1", "1.0-rc", "1.0-rc.", "1.0-gamma.1", "1.0+xyz",
        "1.0+ABCDEF0", "1.0+abcdef", "1.0+abcdef01", "1.0+", "1+local", "1.0 ", " 1.0",
        "4294967296", "1.4294967296", "99999999999999999999999", "nightly", "1.0-rc.1+",
        "1.0+locals", "1.0+loca",
    ] {
        assert_eq!(parse(text), Err(ParseError), "{:?}", text);
    }
}

#[test]
fn parse_takes_the_largest_number() {
    assert_eq!(parse("4294967295"), Ok(VersionSpec::Filter(Filter { major: 4294967295, minor: None })));
    assert_eq!(
        parse("0.4294967295"),
        Ok(VersionSpec::Filter(Filter { major: 0, minor: Some(FilterMinor::Minor(4294967295)) }))
    );
}

#[test]
fn shape_holds_every_part() {
    let shape = parse_shape(b"12.0-beta.3+local").unwrap();
    assert_eq!(shape.major, 12);
    assert_eq!(shape.minor, Some(0));
    assert_eq!(shape.pre, Some((Stage::Beta, 3)));
    assert_eq!(shape.meta, Some(BuildMeta::Local));
    assert!(shape.filter().is_none());
    assert!(shape.specific().is_none());
    assert!(shape.build().is_some());
    assert!(parse_shape(b"12.0-beta3").is_none());
}

#[test]
fn filter_is_a_lower_bound_on_one_major_line() {
    let f = Filter { major: 2, minor: Some(FilterMinor::Minor(3)) };
    assert!(f.matches(&stable(2, 3)));
    assert!(f.matches(&stable(2, 9)));
    assert!(!f.matches(&stable(2, 2)));
    assert!(!f.matches(&stable(3, 3)));
    assert!(!f.matches(&with_minor(2, MinorVersion::Rc(9))));
    assert!(!f.matches(&with_minor(2, MinorVersion::Dev(9))));

    let rc = Filter { major: 2, minor: Some(FilterMinor::Rc(2)) };
    assert!(rc.matches(&with_minor(2, MinorVersion::Rc(2))));
    assert!(rc.matches(&with_minor(2, MinorVersion::Rc(5))));
    assert!(!rc.matches(&with_minor(2, MinorVersion::Rc(1))));
    assert!(!rc.matches(&with_minor(2, MinorVersion::Beta(7))));
    assert!(!rc.matches(&with_minor(2, MinorVersion::Alpha(7))));
    assert!(rc.matches(&stable(2, 0)));
    assert!(!rc.matches(&with_minor(2, MinorVersion::Dev(7))));

    let any = Filter { major: 2, minor: None };
    assert!(any.matches(&stable(2, 0)));
    assert!(any.matches(&stable(2, 7)));
    assert!(!any.matches(&with_minor(2, MinorVersion::Rc(1))));
    assert!(!any.matches(&stable(1, 7)));
}

#[test]
fn query_defaults_to_stable_releases() {
    let q = Query::stable();
    assert_eq!(q, Query { channel: Channel::Stable, version: None });
    assert_eq!(Query::from(Channel::Stable), q);
    assert!(q.matches(&stable(1, 0)));
    assert!(q.matches(&stable(4, 2)));
    assert!(!q.matches(&with_minor(4, MinorVersion::Rc(2))));
    assert!(!q.matches(&with_minor(4, MinorVersion::Dev(2))));

    let nightly = Query::from(Channel::Nightly);
    assert!(nightly.matches(&with_minor(4, MinorVersion::Dev(2))));
    assert!(!nightly.matches(&stable(4, 2)));

    let narrowed = Query { channel: Channel::Stable, version: Some(Filter { major: 2, minor: None }) };
    assert!(narrowed.matches(&stable(2, 1)));
    assert!(!narrowed.matches(&stable(3, 1)));

    let nightly_two = Query { channel: Channel::Nightly, version: Some(Filter { major: 2, minor: None }) };
    assert!(nightly_two.matches(&with_minor(2, MinorVersion::Dev(1))));
    assert!(!nightly_two.matches(&with_minor(3, MinorVersion::Dev(1))));
}

#[test]
fn specific_and_build_match_exactly() {
    let v = with_minor(1, MinorVersion::Minor(2));
    let other_build = Version { specific: v.specific, meta: BuildMeta::Local };
    let specific = VersionSpec::Specific(Specific { major: 1, minor: MinorVersion::Minor(2) });
    assert!(specific.matches(&v));
    assert!(specific.matches(&other_build));
    assert!(!specific.matches(&stable(1, 3)));
    let build = VersionSpec::Build(v);
    assert!(build.matches(&v));
    assert!(!build.matches(&other_build));
    assert!(VersionSpec::Filter(Filter { major: 1, minor: None }).matches(&v));
    assert!(VersionSpec::Query(Query::stable()).matches(&v));
    assert!(!VersionSpec::Query(Query::from(Channel::Nightly)).matches(&v));
}

#[test]
fn version_projections() {
    let v = with_minor(5, MinorVersion::Dev(20230101));
    assert!(v.is_nightly());
    assert_eq!(v.specific(), Specific { major: 5, minor: MinorVersion::Dev(20230101) });
    assert!(!stable(5, 0).is_nightly());
    assert!(stable(1, 0) < stable(1, 1));
    assert!(stable(1, 9) < stable(2, 0));
}

#[test]
fn specific_text_reads_back() {
    let cases = [
        (Specific { major: 1, minor: MinorVersion::Minor(0) }, "1.0"),
        (Specific { major: 12, minor: MinorVersion::Minor(345) }, "12.345"),
        (Specific { major: 2, minor: MinorVersion::Alpha(1) }, "2.0-alpha.1"),
        (Specific { major: 2, minor: MinorVersion::Beta(20) }, "2.0-beta.20"),
        (Specific { major: 2, minor: MinorVersion::Rc(3) }, "2.0-rc.3"),
        (Specific { major: 3, minor: MinorVersion::Dev(20230101) }, "3.0-dev.20230101"),
        (Specific { major: 0, minor: MinorVersion::Minor(4294967295) }, "0.4294967295"),
    ];
    for (specific, text) in cases {
        assert_eq!(specific.to_text(), text);
        assert_eq!(parse_specific(text), Some(specific));
    }
    assert_eq!(edgedb_cli::grammar::decimal(0), "0");
    assert_eq!(edgedb_cli::grammar::decimal(10), "10");
    assert_eq!(edgedb_cli::grammar::decimal(4294967295), "4294967295");
}
