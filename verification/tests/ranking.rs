use patent_backend::infrigement::ProductInfrigement;
use patent_backend::likelihood::Likelihood;
use patent_backend::ranking::{insert_finding, rank};

fn finding(name: &str, cited: usize, claims: usize) -> ProductInfrigement {
    ProductInfrigement::new(
        "US123".to_string(),
        name.to_string(),
        Likelihood::new(cited, claims),
        Vec::new(),
        String::new(),
        Vec::new(),
    )
}

fn names(findings: &[ProductInfrigement]) -> Vec<String> {
    findings.iter().map(|f| f.product_name.clone()).collect()
}

#[test]
fn rank_keeps_only_findings_above_the_threshold() {
    let findings = vec![
        finding("zero", 0, 4),
        finding("quarter", 1, 4),
        finding("edge", 3, 10),
        finding("just above", 31, 100),
        finding("half", 2, 4),
        finding("no claims", 5, 0),
    ];
    let ranked = rank(&findings);
    assert_eq!(names(&ranked), vec!["half", "just above"]);
    for f in &ranked {
        assert!(f.infringement_likelihood.is_above_threshold());
    }
}

#[test]
fn rank_orders_from_the_greatest_likelihood_down() {
    let findings = vec![
        finding("a", 2, 4),
        finding("b", 4, 4),
        finding("c", 3, 4),
        finding("d", 9, 4),
        finding("e", 2, 5),
    ];
    let ranked = rank(&findings);
    assert_eq!(names(&ranked), vec!["d", "b", "c", "a", "e"]);
    for pair in ranked.windows(2) {
        assert!(pair[0].infringement_likelihood.is_at_least(&pair[1].infringement_likelihood));
    }
}

#[test]
fn rank_keeps_equal_findings_in_their_order() {
    let findings = vec![
        finding("first", 1, 2),
        finding("second", 2, 4),
        finding("top", 3, 4),
        finding("third", 4, 8),
    ];
    assert_eq!(names(&rank(&findings)), vec!["top", "first", "second", "third"]);
}

#[test]
fn rank_of_nothing_that_counts_is_empty() {
    assert!(rank(&Vec::new()).is_empty());
    assert!(rank(&vec![finding("a", 0, 4), finding("b", 1, 4), finding("c", 3, 10)]).is_empty());
}

#[test]
fn rank_agrees_with_a_stable_sort_of_the_ratios() {
    let mut findings = Vec::new();
    let mut seed: u64 = 12345;
    for i in 0..200 {
        seed = seed.wrapping_mul(6364136223846793005).wrapping_add(1442695040888963407);
        let cited = ((seed >> 33) % 9) as usize;
        let claims = 1 + ((seed >> 40) % 8) as usize;
        findings.push(finding(&format!("p{}", i), cited, claims));
    }
    let mut want: Vec<(String, f32)> = findings
        .iter()
        .map(|f| {
            (
                f.product_name.clone(),
                f.infringement_likelihood.cited as f32 / f.infringement_likelihood.claims as f32,
            )
        })
        .filter(|(_, ratio)| *ratio > 0.3)
        .collect();
    want.sort_by(|a, b| b.1.partial_cmp(&a.1).unwrap());
    let want: Vec<String> = want.into_iter().map(|(name, _)| name).collect();
    assert_eq!(names(&rank(&findings)), want);
}

#[test]
fn insert_finding_goes_behind_the_last_that_is_at_least_as_great() {
    let mut sorted = vec![finding("a", 3, 4), finding("b", 2, 4), finding("c", 1, 4)];
    insert_finding(&mut sorted, finding("new", 1, 2));
    assert_eq!(names(&sorted), vec!["a", "b", "new", "c"]);
    insert_finding(&mut sorted, finding("top", 1, 1));
    assert_eq!(names(&sorted), vec!["top", "a", "b", "new", "c"]);
    insert_finding(&mut sorted, finding("last", 0, 1));
    assert_eq!(names(&sorted), vec!["top", "a", "b", "new", "c", "last"]);
    let mut empty = Vec::new();
    insert_finding(&mut empty, finding("only", 1, 2));
    assert_eq!(names(&empty), vec!["only"]);
}
