use trustchain_backend::cache::ReputationCache;
use trustchain_backend::defi;
use trustchain_backend::fixed::Score;
use trustchain_backend::github::{self, GithubSignal};
use trustchain_backend::identity::Identity;
use trustchain_backend::outcall::HttpOutcome;
use trustchain_backend::reputation::{get_reputation, push_score, summary, update_reputation_score};

fn signal(commits: u64, repo: &str, date: &str) -> GithubSignal {
    GithubSignal {
        commit_count: commits,
        stars: 0,
        recent_repo: String::from(repo),
        recent_date: String::from(date),
    }
}

fn shown(micros: u32) -> String {
    let mut out = String::new();
    push_score(&mut out, Score::from_micros(micros).unwrap());
    out
}

#[test]
fn full_activity_scores_one_hundred_and_is_cached() {
    let mut cache = ReputationCache::new();
    let address = "2chl6-4hpzw-vqaaa-aaaaa-c";
    let (score, message) =
        update_reputation_score(&mut cache, &signal(120, "octo/repo", "2024-01-01T00:00:00Z"), 250, address);
    assert_eq!(score.micros(), 100_000_000);
    assert_eq!(
        message,
        "Reputation Score: 100.00 (0-100 scale). Most recent repo: octo/repo on 2024-01-01T00:00:00Z. 120 commits found. DeFi transactions: 250."
    );
    let identity = Identity::from_text(address).unwrap();
    assert_eq!(cache.get(&identity), score);
    assert_eq!(get_reputation(&cache, &identity).micros(), 100_000_000);
    assert_eq!(get_reputation(&cache, &Identity::anonymous()).micros(), 0);
}

#[test]
fn end_to_end_from_two_responses() {
    let commits: Vec<String> = (0..120).map(|i| format!("{{\"sha\":\"{}\"}}", i)).collect();
    let github_body = format!(
        "[{{\"type\":\"PushEvent\",\"repo\":{{\"name\":\"octo/repo\"}},\"created_at\":\"2024-01-01T00:00:00Z\",\"payload\":{{\"commits\":[{}]}}}}]",
        commits.join(",")
    );
    let txs: Vec<String> =
        (0..250).map(|i| format!("{{\"timeStamp\":\"{}\"}}", 1_699_000_000u64 + i)).collect();
    let chain_body = format!("{{\"status\":\"1\",\"result\":[{}]}}", txs.join(","));
    let now = 1_700_000_000u64 * 1_000_000_000;
    let github_signal = github::signal_from_outcome(HttpOutcome::Response {
        status: 200,
        body: github_body.into_bytes(),
    });
    let chain_signal = defi::signal_from_outcome(
        HttpOutcome::Response { status: 200, body: chain_body.into_bytes() },
        now,
    );
    assert_eq!(github_signal.commit_count, 120);
    assert_eq!(chain_signal.tx_count, 250);
    let mut cache = ReputationCache::new();
    let (score, message) =
        update_reputation_score(&mut cache, &github_signal, chain_signal.tx_count, "aaaaa-aa");
    assert_eq!(score.micros(), 100_000_000);
    assert_eq!(
        message,
        "Reputation Score: 100.00 (0-100 scale). Most recent repo: octo/repo on 2024-01-01T00:00:00Z. 120 commits found. DeFi transactions: 250."
    );
    assert_eq!(cache.get(&Identity::from_bytes(Vec::new())).micros(), 100_000_000);
}

#[test]
fn failed_fetches_score_zero() {
    let mut cache = ReputationCache::new();
    let github_signal = github::signal_from_outcome(HttpOutcome::Failed);
    let chain_signal = defi::signal_from_outcome(HttpOutcome::Failed, 0);
    let (score, message) =
        update_reputation_score(&mut cache, &github_signal, chain_signal.tx_count, "aaaaa-aa");
    assert_eq!(score, Score::zero());
    assert_eq!(
        message,
        "Reputation Score: 0.00 (0-100 scale). Most recent repo:  on . 0 commits found. DeFi transactions: 0."
    );
}

#[test]
fn unparseable_address_is_kept_under_the_anonymous_identity() {
    let mut cache = ReputationCache::new();
    let address = "0x52908400098527886E0F7030069857D2E4169EE7";
    let (score, _) = update_reputation_score(&mut cache, &signal(50, "", ""), 100, address);
    assert_eq!(score.micros(), 50_000_000);
    assert_eq!(cache.get(&Identity::anonymous()).micros(), 50_000_000);
    let (second, _) = update_reputation_score(&mut cache, &signal(10, "", ""), 0, "another one");
    assert_eq!(second.micros(), 5_000_000);
    assert_eq!(cache.get(&Identity::anonymous()).micros(), 5_000_000);
}

#[test]
fn a_later_update_overwrites_the_earlier_one() {
    let mut cache = ReputationCache::new();
    let id = Identity::from_text("aaaaa-aa").unwrap();
    update_reputation_score(&mut cache, &signal(100, "a", "b"), 200, "aaaaa-aa");
    assert_eq!(cache.get(&id).micros(), 100_000_000);
    update_reputation_score(&mut cache, &signal(1, "a", "b"), 1, "aaaaa-aa");
    assert_eq!(cache.get(&id).micros(), 750_000);
    update_reputation_score(&mut cache, &signal(0, "a", "b"), 0, "aaaaa-aa");
    assert_eq!(cache.get(&id).micros(), 0);
}

#[test]
fn summary_embeds_score_repo_date_and_counts() {
    let text = summary(Score::from_micros(37_250_000).unwrap(), &signal(49, "me/tool", "yesterday"), 51);
    assert_eq!(
        text,
        "Reputation Score: 37.25 (0-100 scale). Most recent repo: me/tool on yesterday. 49 commits found. DeFi transactions: 51."
    );
    let text = summary(Score::zero(), &signal(u64::MAX, "", ""), u64::MAX);
    assert_eq!(
        text,
        "Reputation Score: 0.00 (0-100 scale). Most recent repo:  on . 18446744073709551615 commits found. DeFi transactions: 18446744073709551615."
    );
}

#[test]
fn scores_show_two_decimals() {
    assert_eq!(shown(0), "0.00");
    assert_eq!(shown(750_000), "0.75");
    assert_eq!(shown(5_000_000), "5.00");
    assert_eq!(shown(37_500_000), "37.50");
    assert_eq!(shown(99_990_000), "99.99");
    assert_eq!(shown(100_000_000), "100.00");
    assert_eq!(shown(1_050_000), "1.05");
}

#[test]
fn scores_round_to_the_nearest_hundredth_and_halves_to_even() {
    assert_eq!(shown(4_999), "0.00");
    assert_eq!(shown(5_000), "0.00");
    assert_eq!(shown(5_001), "0.01");
    assert_eq!(shown(15_000), "0.02");
    assert_eq!(shown(25_000), "0.02");
    assert_eq!(shown(12_345_000), "12.34");
    assert_eq!(shown(12_355_000), "12.36");
    assert_eq!(shown(12_349_999), "12.35");
    assert_eq!(shown(995_000), "1.00");
    assert_eq!(shown(99_995_000), "100.00");
    assert_eq!(shown(99_994_999), "99.99");
}

#[test]
fn scores_show_as_a_float_of_the_same_value_does() {
    for quarter in 0..=400u32 {
        let micros = quarter * 250_000;
        let value = f64::from(quarter) * 0.25;
        assert_eq!(shown(micros), format!("{:.2}", value));
    }
    for eighth in 0..=800u32 {
        let micros = eighth * 125_000;
        let value = f64::from(eighth) * 0.125;
        assert_eq!(shown(micros), format!("{:.2}", value));
    }
}
