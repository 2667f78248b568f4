//! Detail fetcher: turns remote catalogue responses into the library's
//! details and review records.
use vstd::prelude::*;

use crate::scanner::{trim_text, trimmed};
use crate::models::{SteamAppData, SteamAppDetailsResponse, SteamAppResult, SteamReviewsResponse};

verus! {

/// Descriptive metadata of one catalogue entry.
pub struct SteamAppDetails {
    pub app_id: i64,
    pub name: String,
    pub description: Option<String>,
    pub header_image: Option<String>,
    pub background: Option<String>,
    pub developers: Option<Vec<String>>,
    pub publishers: Option<Vec<String>>,
    pub genres: Option<Vec<String>>,
    pub release_date: Option<String>,
}

/// Aggregate review statistics of one catalogue entry.
pub struct SteamReviews {
    pub score: i64,
    pub count: i64,
    pub summary: String,
}

/// The character of a decimal digit `0..=9`.
pub open spec fn digit_char(d: nat) -> char {
    (d + '0' as nat) as char
}

/// Decimal digits of a natural number, most significant first, without
/// leading zeros.
pub open spec fn nat_digits(n: nat) -> Seq<char>
    decreases n,
{
    if n < 10 {
        seq![digit_char(n)]
    } else {
        nat_digits(n / 10).push(digit_char(n % 10))
    }
}

/// An integer written in decimal, with a leading `-` when negative.
pub open spec fn decimal_of(n: int) -> Seq<char> {
    if n < 0 {
        seq!['-'] + nat_digits((-n) as nat)
    } else {
        nat_digits(n as nat)
    }
}

/// Relies on `i64`'s `Display` (through `to_string`): plain decimal digits,
/// preceded by `-` for a negative number.
#[verifier::external_body]
fn id_text(n: i64) -> (r: String)
    ensures
        r@ == decimal_of(n as int),
{
    n.to_string()
}

/// `i` is the first record of `apps` whose key is `key`.
pub open spec fn is_first_key(apps: Seq<(String, SteamAppResult)>, key: Seq<char>, i: int) -> bool {
    &&& 0 <= i < apps.len()
    &&& apps[i].0@ == key
    &&& forall|j: int| 0 <= j < i ==> apps[j].0@ != key
}

/// The record for `app_id` exists, reports success and carries data.
pub open spec fn has_usable_record(apps: Seq<(String, SteamAppResult)>, app_id: i64) -> bool {
    exists|i: int|
        #![trigger apps[i]]
        is_first_key(apps, decimal_of(app_id as int), i) && apps[i].1.success
            && apps[i].1.data is Some
}

/// `r` carries the fields of `d` for catalogue id `app_id`.
pub open spec fn details_match(r: SteamAppDetails, app_id: i64, d: SteamAppData) -> bool {
    &&& r.app_id == app_id
    &&& r.name == d.name
    &&& r.description == d.short_description
    &&& r.header_image == d.header_image
    &&& r.background == d.background
    &&& r.developers == d.developers
    &&& r.publishers == d.publishers
    &&& r.genres is Some == d.genres is Some
    &&& d.genres is Some ==> {
        let g = d.genres->0@;
        let rg = r.genres->0@;
        &&& rg.len() == g.len()
        &&& forall|k: int| 0 <= k < g.len() ==> #[trigger] rg[k] == g[k].description
    }
    &&& r.release_date == match d.release_date {
        Some(rd) => rd.date,
        None => None,
    }
}

/// Picks the record for `app_id` out of a details response. There is a
/// result exactly when the record exists, reports success and carries data.
pub fn details_from_response(data: SteamAppDetailsResponse, app_id: i64) -> (r: Option<SteamAppDetails>)
    ensures
        r is Some <==> has_usable_record(data.apps@, app_id),
        forall|i: int|
            #![trigger data.apps@[i]]
            is_first_key(data.apps@, decimal_of(app_id as int), i) && r is Some
                ==> details_match(r->0, app_id, data.apps@[i].1.data->0),
{
    let key = id_text(app_id);
    let ghost apps0 = data.apps@;
    let mut apps = data.apps;
    let mut i: usize = 0;
    let mut found = false;
    while i < apps.len()
        invariant_except_break
            !found,
        invariant
            apps@ == apps0,
            0 <= i <= apps@.len(),
            forall|j: int| 0 <= j < i ==> apps@[j].0@ != key@,
        ensures
            found ==> i < apps@.len() && apps@[i as int].0@ == key@,
            !found ==> i == apps@.len(),
            forall|j: int| 0 <= j < i ==> apps@[j].0@ != key@,
        decreases apps@.len() - i,
    {
        if apps[i].0 == key {
            found = true;
            break;
        }
        i += 1;
    }
    if !found {
        return None;
    }
    assert(is_first_key(apps0, key@, i as int));
    let (_, record) = apps.remove(i);
    if !record.success {
        return None;
    }
    match record.data {
        None => None,
        Some(d) => {
            let genres = match d.genres {
                None => None,
                Some(g) => {
                    let mut out: Vec<String> = Vec::new();
                    let mut k: usize = 0;
                    while k < g.len()
                        invariant
                            0 <= k <= g@.len(),
                            out@.len() == k,
                            forall|m: int| 0 <= m < k ==> #[trigger] out@[m] == g@[m].description,
                        decreases g@.len() - k,
                    {
                        out.push(g[k].description.clone());
                        k += 1;
                    }
                    Some(out)
                },
            };
            let release_date = match d.release_date {
                Some(rd) => rd.date,
                None => None,
            };
            Some(SteamAppDetails {
                app_id,
                name: d.name,
                description: d.short_description,
                header_image: d.header_image,
                background: d.background,
                developers: d.developers,
                publishers: d.publishers,
                genres,
                release_date,
            })
        },
    }
}

/// Review score in percent: `100 * positive / (positive + negative)`, rounded
/// to the nearest integer with halves rounded up, and 0 when there are no
/// reviews at all.
pub open spec fn review_score(positive: int, negative: int) -> int {
    if positive + negative == 0 {
        0
    } else {
        (200 * positive + (positive + negative)) / (2 * (positive + negative))
    }
}

/// Computes the aggregate review score from positive and negative counts.
pub fn compute_score(positive: i64, negative: i64) -> (r: i64)
    requires
        positive >= 0,
        negative >= 0,
    ensures
        r == review_score(positive as int, negative as int),
        0 <= r <= 100,
{
    let total: i128 = positive as i128 + negative as i128;
    if total == 0 {
        return 0;
    }
    let num: i128 = 200 * (positive as i128) + total;
    let den: i128 = 2 * total;
    proof {
        let p = positive as int;
        let t = total as int;
        assert(0 <= p <= t);
        assert(200 * p + t < 202 * t) by (nonlinear_arith)
            requires 0 <= p <= t, t > 0;
        assert((200 * p + t) / (2 * t) <= 100) by (nonlinear_arith)
            requires 200 * p + t < 202 * t, t > 0, 0 <= p;
        assert((200 * p + t) / (2 * t) >= 0) by (nonlinear_arith)
            requires t > 0, 0 <= p;
    }
    (num / den) as i64
}

/// Turns a reviews response into review statistics. There is a result exactly
/// when the response reports success (`1`) and carries a summary whose counts
/// are not negative; the score is then `review_score` of the counts, an absent
/// count standing for 0.
pub fn reviews_from_response(data: SteamReviewsResponse) -> (r: Option<SteamReviews>)
    ensures
        r is Some <==> {
            &&& data.success == 1
            &&& data.query_summary is Some
            &&& data.query_summary->0.total_positive.unwrap_or(0) >= 0
            &&& data.query_summary->0.total_negative.unwrap_or(0) >= 0
        },
        r is Some ==> {
            let q = data.query_summary->0;
            &&& r->0.score == review_score(
                q.total_positive.unwrap_or(0) as int,
                q.total_negative.unwrap_or(0) as int,
            )
            &&& r->0.count == q.total_reviews.unwrap_or(0)
            &&& r->0.summary@ == match q.review_score_desc {
                Some(s) => s@,
                None => Seq::<char>::empty(),
            }
        },
{
    if data.success != 1 {
        return None;
    }
    match data.query_summary {
        None => None,
        Some(q) => {
            let positive = match q.total_positive {
                Some(n) => n,
                None => 0,
            };
            let negative = match q.total_negative {
                Some(n) => n,
                None => 0,
            };
            if positive < 0 || negative < 0 {
                return None;
            }
            let count = match q.total_reviews {
                Some(n) => n,
                None => 0,
            };
            let summary = match q.review_score_desc {
                Some(s) => s,
                None => String::new(),
            };
            Some(SteamReviews { score: compute_score(positive, negative), count, summary })
        },
    }
}


/// Lower-case titles with their catalogue ids. An id of 0 marks a title that
/// is known to have no catalogue entry and must never be matched.
pub open spec fn known_mappings() -> Seq<(&'static str, i64)> {
    seq![
        ("cyberpunk 2077", 1091500i64),
        ("baldur's gate 3", 1086940i64),
        ("elden ring", 1245620i64),
        ("elden ring nightreign", 2622380i64),
        ("doom eternal", 782330i64),
        ("days gone", 1259420i64),
        ("gta v", 271590i64),
        ("grand theft auto v", 271590i64),
        ("grand theft auto v enhanced", 271590i64),
        ("snowrunner", 1465360i64),
        ("arma 3", 107410i64),
        ("forza horizon 5", 1551360i64),
        ("forza motorsport", 2440510i64),
        ("halo infinite", 1240440i64),
        ("stalker 2 heart of chornobyl", 1643320i64),
        ("s.t.a.l.k.e.r. 2", 1643320i64),
        ("kingdom come deliverance ii", 1771300i64),
        ("frostpunk", 323190i64),
        ("frostpunk 2", 1601580i64),
        ("cities skylines ii", 949230i64),
        ("farming simulator 22", 1248130i64),
        ("farming simulator 25", 2300320i64),
        ("age of empires iv", 1466860i64),
        ("age of empires ii definitive edition", 813780i64),
        ("age of empires iii definitive edition", 933110i64),
        ("age of empires definitive edition", 1017900i64),
        ("hitman 3", 1659040i64),
        ("hitman world of assassination", 1659040i64),
        ("assassin's creed odyssey", 812140i64),
        ("assassin's creed mirage", 2208920i64),
        ("diablo 2 resurrected", 0i64),
        ("far cry 5", 552520i64),
        ("need for speed heat", 1222680i64),
        ("hollow knight silksong", 1030300i64),
        ("alan wake 2", 0i64),
        ("final fantasy vii remake intergrade", 1462040i64),
        ("final fantasy vii rebirth", 2909400i64),
        ("final fantasy xvi", 2515020i64),
        ("conan exiles", 440900i64),
        ("icarus", 1149460i64),
        ("company of heroes 3", 1677280i64),
        ("mechwarrior 5 clans", 1983350i64),
        ("northgard", 466560i64),
        ("space engineers", 244850i64),
        ("automobilista 2", 1066890i64),
        ("dirt rally 2.0", 690790i64),
        ("c&c - remastered collection", 1213210i64),
        ("c&c remastered collection", 1213210i64),
        ("command & conquer remastered collection", 1213210i64),
        ("command and conquer remastered collection", 1213210i64),
        ("c&c red alert 3", 17480i64),
        ("command & conquer red alert 3", 17480i64),
        ("c&c 3 tiberium wars", 24790i64),
        ("command & conquer 3 tiberium wars", 24790i64),
        ("fallout 4", 377160i64),
        ("fallout 4 goty", 377160i64),
        ("fallout 76", 1151340i64),
        ("fallout new vegas", 22380i64),
        ("fallout 3", 22300i64),
        ("fallout 3 goty", 22300i64),
        ("gold rush - the game", 451340i64),
        ("gold rush the game", 451340i64),
        ("euro truck simulator 2", 227300i64),
        ("american truck simulator", 270880i64),
        ("train sim world", 530070i64),
        ("train sim world 2", 1282590i64),
        ("train sim world 3", 1944790i64),
        ("train sim world 4", 2362320i64),
        ("red dead redemption 2", 1174180i64),
        ("rdr2", 1174180i64),
        ("the witcher 3", 292030i64),
        ("witcher 3", 292030i64),
        ("witcher 3 wild hunt", 292030i64),
        ("the witcher 3 wild hunt", 292030i64),
        ("gta iv", 12210i64),
        ("grand theft auto iv", 12210i64),
        ("death stranding", 1190460i64),
        ("death stranding director's cut", 1850570i64),
        ("horizon zero dawn", 1151640i64),
        ("horizon forbidden west", 2420110i64),
        ("god of war", 1593500i64),
        ("god of war ragnarok", 2322010i64),
        ("resident evil 4", 2050650i64),
        ("resident evil 4 remake", 2050650i64),
        ("resident evil village", 1196590i64),
        ("resident evil 8", 1196590i64),
        ("sekiro", 814380i64),
        ("sekiro shadows die twice", 814380i64),
        ("dark souls iii", 374320i64),
        ("dark souls 3", 374320i64),
        ("dark souls remastered", 570940i64),
        ("monster hunter rise", 1446780i64),
        ("monster hunter world", 582010i64),
        ("armored core vi", 1888160i64),
        ("armored core 6", 1888160i64),
        ("armored core vi fires of rubicon", 1888160i64),
        ("assetto corsa", 244210i64),
        ("assetto corsa competizione", 805550i64),
        ("f1 23", 2108330i64),
        ("f1 2023", 2108330i64),
        ("f1 24", 2488620i64),
        ("f1 2024", 2488620i64),
        ("need for speed unbound", 1846380i64),
        ("need for speed most wanted", 1262540i64),
        ("the crew motorfest", 1933490i64),
        ("crew motorfest", 1933490i64),
        ("total war warhammer iii", 1142710i64),
        ("total war warhammer 3", 1142710i64),
        ("civilization vi", 289070i64),
        ("civilization 6", 289070i64),
        ("civ 6", 289070i64),
        ("crusader kings iii", 1158310i64),
        ("crusader kings 3", 1158310i64),
        ("europa universalis iv", 236850i64),
        ("eu4", 236850i64),
        ("stellaris", 281990i64),
        ("hearts of iron iv", 394360i64),
        ("hoi4", 394360i64),
        ("hades", 1145360i64),
        ("hades ii", 1145350i64),
        ("hades 2", 1145350i64),
        ("hollow knight", 367520i64),
        ("celeste", 504230i64),
        ("cuphead", 268910i64),
        ("dead cells", 588650i64),
        ("stardew valley", 413150i64),
        ("terraria", 105600i64),
        ("valheim", 892970i64),
        ("satisfactory", 526870i64),
        ("factorio", 427520i64),
        ("rimworld", 294100i64),
        ("subnautica", 264710i64),
        ("subnautica below zero", 848450i64),
        ("rust", 252490i64),
        ("ark survival evolved", 346110i64),
        ("ark survival ascended", 2399830i64),
        ("the forest", 242760i64),
        ("sons of the forest", 1326470i64),
        ("raft", 648800i64),
        ("grounded", 962130i64),
        ("v rising", 1604030i64),
        ("palworld", 1623730i64),
        ("resident evil 2", 883710i64),
        ("resident evil 2 remake", 883710i64),
        ("resident evil 3", 952060i64),
        ("resident evil 3 remake", 952060i64),
        ("dead space", 1693980i64),
        ("dead space remake", 1693980i64),
        ("the callisto protocol", 1461830i64),
        ("outlast", 238320i64),
        ("amnesia rebirth", 999220i64),
        ("amnesia the bunker", 1944430i64),
        ("ea sports fc 24", 2195250i64),
        ("fc 24", 2195250i64),
        ("fifa 24", 2195250i64),
        ("ea sports fc 25", 2669320i64),
        ("fc 25", 2669320i64),
        ("nba 2k24", 2338770i64),
        ("nba 2k25", 2688840i64),
        ("starfield", 1716740i64),
        ("hogwarts legacy", 990080i64),
        ("spider-man remastered", 1817070i64),
        ("marvel's spider-man remastered", 1817070i64),
        ("spider-man miles morales", 1817190i64),
        ("marvel's spider-man miles morales", 1817190i64),
        ("ghost of tsushima", 2215430i64),
        ("ghost of tsushima director's cut", 2215430i64),
        ("lies of p", 1627720i64),
        ("lords of the fallen", 1501750i64),
        ("wo long fallen dynasty", 1448440i64),
        ("black myth wukong", 2358720i64),
        ("tes iv - oblivion remastered", 22330i64),
        ("tes iv oblivion remastered", 22330i64),
        ("oblivion remastered", 22330i64),
        ("the elder scrolls iv oblivion", 22330i64),
        ("tes v - skyrim", 489830i64),
        ("skyrim special edition", 489830i64),
        ("skyrim anniversary edition", 489830i64),
        ("wh40k - space marine", 55150i64),
        ("wh40k space marine", 55150i64),
        ("warhammer 40000 space marine", 55150i64),
        ("wh40k - space marine mce", 55150i64),
        ("space marine 2", 2183900i64),
        ("warhammer 40000 space marine 2", 2183900i64),
        ("doom classic bundle", 2280i64),
        ("doom i & ii enhanced", 2280i64),
        ("doom 1", 2280i64),
        ("doom 2", 2300i64),
        ("doom 3", 9050i64),
        ("doom 2016", 379720i64),
        ("doom", 379720i64),
        ("syberia - remastered", 46500i64),
        ("syberia remastered", 46500i64),
        ("syberia", 46500i64),
        ("syberia 2", 46510i64),
        ("syberia 3", 464340i64),
        ("syberia the world before", 1410680i64),
        ("gta trilogy - definitive edition", 1847330i64),
        ("gta trilogy definitive edition", 1847330i64),
        ("grand theft auto trilogy - definitive edition", 1847330i64),
        ("grand theft auto trilogy definitive edition", 1847330i64),
        ("gta iii definitive edition", 1847330i64),
        ("gta vice city definitive edition", 1546990i64),
        ("gta san andreas definitive edition", 1547000i64),
        ("commandos - origins", 1479730i64),
        ("commandos origins", 1479730i64),
        ("diablo 2 - resurrected", 0i64),
        ("diablo ii resurrected", 0i64),
        ("pokemon legends - z-a", 0i64),
        ("pokemon legends z-a", 0i64),
        ("super mario galaxy 1 + 2", 0i64),
        ("super mario galaxy", 0i64),
        ("mgs delta - snake eater", 0i64),
        ("mgs delta snake eater", 0i64),
        ("jurassic park cgc", 275890i64),
        ("jurassic park the game", 275890i64),
        ("jurassic world evolution", 648350i64),
        ("jurassic world evolution 2", 1244460i64),
    ]
}

/// The curated alias table, in a fixed order.
pub fn get_known_mappings() -> (r: Vec<(&'static str, i64)>)
    ensures
        r@ == known_mappings(),
{
    let r = vec![
        ("cyberpunk 2077", 1091500i64),
        ("baldur's gate 3", 1086940i64),
        ("elden ring", 1245620i64),
        ("elden ring nightreign", 2622380i64),
        ("doom eternal", 782330i64),
        ("days gone", 1259420i64),
        ("gta v", 271590i64),
        ("grand theft auto v", 271590i64),
        ("grand theft auto v enhanced", 271590i64),
        ("snowrunner", 1465360i64),
        ("arma 3", 107410i64),
        ("forza horizon 5", 1551360i64),
        ("forza motorsport", 2440510i64),
        ("halo infinite", 1240440i64),
        ("stalker 2 heart of chornobyl", 1643320i64),
        ("s.t.a.l.k.e.r. 2", 1643320i64),
        ("kingdom come deliverance ii", 1771300i64),
        ("frostpunk", 323190i64),
        ("frostpunk 2", 1601580i64),
        ("cities skylines ii", 949230i64),
        ("farming simulator 22", 1248130i64),
        ("farming simulator 25", 2300320i64),
        ("age of empires iv", 1466860i64),
        ("age of empires ii definitive edition", 813780i64),
        ("age of empires iii definitive edition", 933110i64),
        ("age of empires definitive edition", 1017900i64),
        ("hitman 3", 1659040i64),
        ("hitman world of assassination", 1659040i64),
        ("assassin's creed odyssey", 812140i64),
        ("assassin's creed mirage", 2208920i64),
        ("diablo 2 resurrected", 0i64),
        ("far cry 5", 552520i64),
        ("need for speed heat", 1222680i64),
        ("hollow knight silksong", 1030300i64),
        ("alan wake 2", 0i64),
        ("final fantasy vii remake intergrade", 1462040i64),
        ("final fantasy vii rebirth", 2909400i64),
        ("final fantasy xvi", 2515020i64),
        ("conan exiles", 440900i64),
        ("icarus", 1149460i64),
        ("company of heroes 3", 1677280i64),
        ("mechwarrior 5 clans", 1983350i64),
        ("northgard", 466560i64),
        ("space engineers", 244850i64),
        ("automobilista 2", 1066890i64),
        ("dirt rally 2.0", 690790i64),
        ("c&c - remastered collection", 1213210i64),
        ("c&c remastered collection", 1213210i64),
        ("command & conquer remastered collection", 1213210i64),
        ("command and conquer remastered collection", 1213210i64),
        ("c&c red alert 3", 17480i64),
        ("command & conquer red alert 3", 17480i64),
        ("c&c 3 tiberium wars", 24790i64),
        ("command & conquer 3 tiberium wars", 24790i64),
        ("fallout 4", 377160i64),
        ("fallout 4 goty", 377160i64),
        ("fallout 76", 1151340i64),
        ("fallout new vegas", 22380i64),
        ("fallout 3", 22300i64),
        ("fallout 3 goty", 22300i64),
        ("gold rush - the game", 451340i64),
        ("gold rush the game", 451340i64),
        ("euro truck simulator 2", 227300i64),
        ("american truck simulator", 270880i64),
        ("train sim world", 530070i64),
        ("train sim world 2", 1282590i64),
        ("train sim world 3", 1944790i64),
        ("train sim world 4", 2362320i64),
        ("red dead redemption 2", 1174180i64),
        ("rdr2", 1174180i64),
        ("the witcher 3", 292030i64),
        ("witcher 3", 292030i64),
        ("witcher 3 wild hunt", 292030i64),
        ("the witcher 3 wild hunt", 292030i64),
        ("gta iv", 12210i64),
        ("grand theft auto iv", 12210i64),
        ("death stranding", 1190460i64),
        ("death stranding director's cut", 1850570i64),
        ("horizon zero dawn", 1151640i64),
        ("horizon forbidden west", 2420110i64),
        ("god of war", 1593500i64),
        ("god of war ragnarok", 2322010i64),
        ("resident evil 4", 2050650i64),
        ("resident evil 4 remake", 2050650i64),
        ("resident evil village", 1196590i64),
        ("resident evil 8", 1196590i64),
        ("sekiro", 814380i64),
        ("sekiro shadows die twice", 814380i64),
        ("dark souls iii", 374320i64),
        ("dark souls 3", 374320i64),
        ("dark souls remastered", 570940i64),
        ("monster hunter rise", 1446780i64),
        ("monster hunter world", 582010i64),
        ("armored core vi", 1888160i64),
        ("armored core 6", 1888160i64),
        ("armored core vi fires of rubicon", 1888160i64),
        ("assetto corsa", 244210i64),
        ("assetto corsa competizione", 805550i64),
        ("f1 23", 2108330i64),
        ("f1 2023", 2108330i64),
        ("f1 24", 2488620i64),
        ("f1 2024", 2488620i64),
        ("need for speed unbound", 1846380i64),
        ("need for speed most wanted", 1262540i64),
        ("the crew motorfest", 1933490i64),
        ("crew motorfest", 1933490i64),
        ("total war warhammer iii", 1142710i64),
        ("total war warhammer 3", 1142710i64),
        ("civilization vi", 289070i64),
        ("civilization 6", 289070i64),
        ("civ 6", 289070i64),
        ("crusader kings iii", 1158310i64),
        ("crusader kings 3", 1158310i64),
        ("europa universalis iv", 236850i64),
        ("eu4", 236850i64),
        ("stellaris", 281990i64),
        ("hearts of iron iv", 394360i64),
        ("hoi4", 394360i64),
        ("hades", 1145360i64),
        ("hades ii", 1145350i64),
        ("hades 2", 1145350i64),
        ("hollow knight", 367520i64),
        ("celeste", 504230i64),
        ("cuphead", 268910i64),
        ("dead cells", 588650i64),
        ("stardew valley", 413150i64),
        ("terraria", 105600i64),
        ("valheim", 892970i64),
        ("satisfactory", 526870i64),
        ("factorio", 427520i64),
        ("rimworld", 294100i64),
        ("subnautica", 264710i64),
        ("subnautica below zero", 848450i64),
        ("rust", 252490i64),
        ("ark survival evolved", 346110i64),
        ("ark survival ascended", 2399830i64),
        ("the forest", 242760i64),
        ("sons of the forest", 1326470i64),
        ("raft", 648800i64),
        ("grounded", 962130i64),
        ("v rising", 1604030i64),
        ("palworld", 1623730i64),
        ("resident evil 2", 883710i64),
        ("resident evil 2 remake", 883710i64),
        ("resident evil 3", 952060i64),
        ("resident evil 3 remake", 952060i64),
        ("dead space", 1693980i64),
        ("dead space remake", 1693980i64),
        ("the callisto protocol", 1461830i64),
        ("outlast", 238320i64),
        ("amnesia rebirth", 999220i64),
        ("amnesia the bunker", 1944430i64),
        ("ea sports fc 24", 2195250i64),
        ("fc 24", 2195250i64),
        ("fifa 24", 2195250i64),
        ("ea sports fc 25", 2669320i64),
        ("fc 25", 2669320i64),
        ("nba 2k24", 2338770i64),
        ("nba 2k25", 2688840i64),
        ("starfield", 1716740i64),
        ("hogwarts legacy", 990080i64),
        ("spider-man remastered", 1817070i64),
        ("marvel's spider-man remastered", 1817070i64),
        ("spider-man miles morales", 1817190i64),
        ("marvel's spider-man miles morales", 1817190i64),
        ("ghost of tsushima", 2215430i64),
        ("ghost of tsushima director's cut", 2215430i64),
        ("lies of p", 1627720i64),
        ("lords of the fallen", 1501750i64),
        ("wo long fallen dynasty", 1448440i64),
        ("black myth wukong", 2358720i64),
        ("tes iv - oblivion remastered", 22330i64),
        ("tes iv oblivion remastered", 22330i64),
        ("oblivion remastered", 22330i64),
        ("the elder scrolls iv oblivion", 22330i64),
        ("tes v - skyrim", 489830i64),
        ("skyrim special edition", 489830i64),
        ("skyrim anniversary edition", 489830i64),
        ("wh40k - space marine", 55150i64),
        ("wh40k space marine", 55150i64),
        ("warhammer 40000 space marine", 55150i64),
        ("wh40k - space marine mce", 55150i64),
        ("space marine 2", 2183900i64),
        ("warhammer 40000 space marine 2", 2183900i64),
        ("doom classic bundle", 2280i64),
        ("doom i & ii enhanced", 2280i64),
        ("doom 1", 2280i64),
        ("doom 2", 2300i64),
        ("doom 3", 9050i64),
        ("doom 2016", 379720i64),
        ("doom", 379720i64),
        ("syberia - remastered", 46500i64),
        ("syberia remastered", 46500i64),
        ("syberia", 46500i64),
        ("syberia 2", 46510i64),
        ("syberia 3", 464340i64),
        ("syberia the world before", 1410680i64),
        ("gta trilogy - definitive edition", 1847330i64),
        ("gta trilogy definitive edition", 1847330i64),
        ("grand theft auto trilogy - definitive edition", 1847330i64),
        ("grand theft auto trilogy definitive edition", 1847330i64),
        ("gta iii definitive edition", 1847330i64),
        ("gta vice city definitive edition", 1546990i64),
        ("gta san andreas definitive edition", 1547000i64),
        ("commandos - origins", 1479730i64),
        ("commandos origins", 1479730i64),
        ("diablo 2 - resurrected", 0i64),
        ("diablo ii resurrected", 0i64),
        ("pokemon legends - z-a", 0i64),
        ("pokemon legends z-a", 0i64),
        ("super mario galaxy 1 + 2", 0i64),
        ("super mario galaxy", 0i64),
        ("mgs delta - snake eater", 0i64),
        ("mgs delta snake eater", 0i64),
        ("jurassic park cgc", 275890i64),
        ("jurassic park the game", 275890i64),
        ("jurassic world evolution", 648350i64),
        ("jurassic world evolution 2", 1244460i64),
    ];
    assert(r@ =~= known_mappings());
    r
}


/// Similarities are fractions in `[0, 1]` held in millionths.
pub const SIMILARITY_SCALE: u32 = 1_000_000;

/// An alias is accepted only above this similarity.
pub const ALIAS_MIN_SIMILARITY: u32 = 850_000;

/// A search hit is accepted only above this similarity.
pub const SEARCH_MIN_SIMILARITY: u32 = 600_000;

/// Only this many leading search hits are considered.
pub const SEARCH_RESULT_LIMIT: usize = 5;

/// Alias `i` is close enough to the title and names a real catalogue entry.
pub open spec fn alias_accepts(table: Seq<(&'static str, i64)>, scores: Seq<u32>, i: int) -> bool {
    scores[i] > ALIAS_MIN_SIMILARITY && table[i].1 > 0
}

/// Curated alias step of the resolver. `scores[i]` is the similarity of the
/// lower-cased title to `table[i].0`. The first accepted alias in table order
/// wins; its id and similarity are returned.
pub fn match_alias(table: &Vec<(&'static str, i64)>, scores: &Vec<u32>) -> (r: Option<(i64, u32)>)
    requires
        table@.len() == scores@.len(),
    ensures
        r is None <==> forall|i: int| 0 <= i < table@.len() ==> !alias_accepts(table@, scores@, i),
        r is Some ==> exists|i: int|
            0 <= i < table@.len() && alias_accepts(table@, scores@, i)
                && (forall|j: int| 0 <= j < i ==> !alias_accepts(table@, scores@, j))
                && r == Some((table@[i].1, scores@[i])),
        r is Some ==> (r->0).0 > 0 && (r->0).1 > ALIAS_MIN_SIMILARITY,
{
    let mut i: usize = 0;
    while i < table.len()
        invariant
            table@.len() == scores@.len(),
            0 <= i <= table@.len(),
            forall|j: int| 0 <= j < i ==> !alias_accepts(table@, scores@, j),
        decreases table@.len() - i,
    {
        if scores[i] > ALIAS_MIN_SIMILARITY && table[i].1 > 0 {
            assert(alias_accepts(table@, scores@, i as int));
            return Some((table[i].1, scores[i]));
        }
        i += 1;
    }
    None
}

/// Similarity of the current best hit, 0 when there is none.
pub open spec fn best_score(best: Option<(i64, u32)>) -> u32 {
    match best {
        Some(b) => b.1,
        None => 0,
    }
}

/// Best of the first `n` hits: a hit replaces the current best only when its
/// similarity is strictly greater, so the first of equal hits is kept.
pub open spec fn best_of(hits: Seq<(i64, u32)>, n: nat) -> Option<(i64, u32)>
    decreases n,
{
    if n == 0 {
        None
    } else {
        let prev = best_of(hits, (n - 1) as nat);
        if hits[n - 1].1 > best_score(prev) {
            Some(hits[n - 1])
        } else {
            prev
        }
    }
}

/// Number of leading hits that the resolver looks at.
pub open spec fn considered(hits: Seq<(i64, u32)>) -> nat {
    if hits.len() < SEARCH_RESULT_LIMIT {
        hits.len()
    } else {
        SEARCH_RESULT_LIMIT as nat
    }
}

/// Remote step of the resolver: the hit chosen among the first hits, when its
/// similarity is above the search threshold.
pub open spec fn search_match(hits: Seq<(i64, u32)>) -> Option<(i64, u32)> {
    let best = best_of(hits, considered(hits));
    if best is Some && (best->0).1 > SEARCH_MIN_SIMILARITY {
        best
    } else {
        None
    }
}

/// Remote step of the resolver. `hits` holds the search results in the order
/// received, each as its id and the similarity of its lower-cased name to the
/// lower-cased title.
pub fn pick_search_match(hits: &Vec<(i64, u32)>) -> (r: Option<(i64, u32)>)
    ensures
        r == search_match(hits@),
{
    let n: usize = if hits.len() < SEARCH_RESULT_LIMIT {
        hits.len()
    } else {
        SEARCH_RESULT_LIMIT
    };
    let mut best: Option<(i64, u32)> = None;
    let mut i: usize = 0;
    while i < n
        invariant
            n == considered(hits@),
            n <= hits@.len(),
            0 <= i <= n,
            best == best_of(hits@, i as nat),
        decreases n - i,
    {
        let current: u32 = match best {
            Some(b) => b.1,
            None => 0,
        };
        if hits[i].1 > current {
            best = Some(hits[i]);
        }
        i += 1;
    }
    match best {
        Some(b) => {
            if b.1 > SEARCH_MIN_SIMILARITY {
                Some(b)
            } else {
                None
            }
        },
        None => None,
    }
}

/// The best of the first `n` hits is the first hit that attains the highest
/// similarity among them, provided that similarity is positive.
pub proof fn lemma_best_is_first_maximum(hits: Seq<(i64, u32)>, n: nat, i: int)
    requires
        n <= hits.len(),
        0 <= i < n,
        hits[i].1 > 0,
        forall|k: int| 0 <= k < n ==> hits[k].1 <= hits[i].1,
        forall|k: int| 0 <= k < i ==> hits[k].1 < hits[i].1,
    ensures
        best_of(hits, n) == Some(hits[i]),
    decreases n,
{
    if n == (i + 1) as nat {
        lemma_best_below(hits, i as nat, hits[i].1);
    } else {
        lemma_best_is_first_maximum(hits, (n - 1) as nat, i);
    }
}

/// Every hit chosen among the first `n` hits scores below `bound` when all of
/// them do.
pub proof fn lemma_best_below(hits: Seq<(i64, u32)>, n: nat, bound: u32)
    requires
        n <= hits.len(),
        forall|k: int| 0 <= k < n ==> hits[k].1 < bound,
    ensures
        best_of(hits, n) is Some ==> best_score(best_of(hits, n)) < bound,
    decreases n,
{
    if n > 0 {
        lemma_best_below(hits, (n - 1) as nat, bound);
    }
}

/// Tie-break of the resolver: when two considered hits share the highest
/// similarity, the one received first is returned, never the later one.
pub proof fn lemma_search_tie_keeps_first(hits: Seq<(i64, u32)>, i: int, j: int)
    requires
        0 <= i < j < considered(hits),
        hits[i].1 == hits[j].1,
        hits[i].1 > SEARCH_MIN_SIMILARITY,
        forall|k: int| 0 <= k < considered(hits) ==> hits[k].1 <= hits[i].1,
        forall|k: int| 0 <= k < i ==> hits[k].1 < hits[i].1,
    ensures
        search_match(hits) == Some(hits[i]),
{
    lemma_best_is_first_maximum(hits, considered(hits), i);
}


/// Value of a string of decimal digits.
pub open spec fn digits_value(d: Seq<char>) -> int
    decreases d.len(),
{
    if d.len() == 0 {
        0
    } else {
        digits_value(d.drop_last()) * 10 + (d.last() as int - '0' as int)
    }
}

/// Every character is a decimal digit.
pub open spec fn all_digits(d: Seq<char>) -> bool {
    forall|i: int| 0 <= i < d.len() ==> '0' <= #[trigger] d[i] <= '9'
}

/// The integer that an optional `+` or `-` followed by one or more digits
/// denotes; none for any other text.
pub open spec fn integer_text_value(s: Seq<char>) -> Option<int> {
    let signed = s.len() > 0 && (s[0] == '-' || s[0] == '+');
    let d = if signed { s.drop_first() } else { s };
    if d.len() > 0 && all_digits(d) {
        Some(if signed && s[0] == '-' { -digits_value(d) } else { digits_value(d) })
    } else {
        None
    }
}

/// The `i64` written in `s`, when it denotes one in range.
pub open spec fn parsed_i64(s: Seq<char>) -> Option<i64> {
    match integer_text_value(s) {
        Some(v) => if i64::MIN <= v <= i64::MAX {
            Some(v as i64)
        } else {
            None
        },
        None => None,
    }
}

/// Relies on `str::parse::<i64>`: an optional sign followed by decimal digits
/// only, and a value within range.
#[verifier::external_body]
fn parse_i64(s: &str) -> (r: Option<i64>)
    ensures
        r == parsed_i64(s@),
{
    match s.parse::<i64>() {
        Ok(v) => Some(v),
        Err(_) => None,
    }
}

/// The text of the first capture group of the first match of `pattern` in
/// `text`, as `regex` finds it; none without a match, without that group, or
/// when `pattern` does not compile.
pub uninterp spec fn regex_first_group(pattern: Seq<char>, text: Seq<char>) -> Option<Seq<char>>;

/// Relies on `regex::Regex::new`, `Regex::captures` and `Captures::get(1)`.
#[verifier::external_body]
fn first_group(pattern: &str, text: &str) -> (r: Option<String>)
    ensures
        r is Some <==> regex_first_group(pattern@, text@) is Some,
        r is Some ==> r->0@ == regex_first_group(pattern@, text@)->0,
{
    let re = match regex::Regex::new(pattern) {
        Ok(re) => re,
        Err(_) => return None,
    };
    match re.captures(text) {
        Some(caps) => match caps.get(1) {
            Some(m) => Some(m.as_str().to_string()),
            None => None,
        },
        None => None,
    }
}

/// Store page URLs and `/app/<id>` paths.
pub const STORE_URL_PATTERN: &'static str = r"(?:store\.steampowered\.com/app/|^/app/|/app/)(\d+)";

/// The catalogue id that a person typed: the trimmed text itself when it is
/// an integer, else the id that follows `/app/` in a store URL.
pub open spec fn steam_input_id(input: Seq<char>) -> Option<i64> {
    let t = trimmed(input);
    if parsed_i64(t) is Some {
        parsed_i64(t)
    } else {
        match regex_first_group(STORE_URL_PATTERN@, t) {
            Some(g) => parsed_i64(g),
            None => None,
        }
    }
}

/// Reads a catalogue id from a store URL or a bare id.
pub fn parse_steam_input(input: &str) -> (r: Option<i64>)
    ensures
        r == steam_input_id(input@),
{
    let t = trim_text(input);
    let direct = parse_i64(t.as_str());
    if direct.is_some() {
        return direct;
    }
    match first_group(STORE_URL_PATTERN, t.as_str()) {
        Some(g) => parse_i64(g.as_str()),
        None => None,
    }
}

} // verus!
