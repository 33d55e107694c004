use bin_weather::feed::{parse_rss_xml, weather_from_events, XmlEvent};

const FEED: &str = r#"<?xml version="1.0" encoding="UTF-8"?>
<feed xmlns="http://www.w3.org/2005/Atom">
  <title>Toronto - Weather - Environment Canada</title>
  <updated>2025-10-18T18:00:00Z</updated>
  <entry>
    <title>Current Conditions: Mostly Cloudy, 10.4°C</title>
    <category term="Current Conditions"/>
    <summary type="html">&lt;b&gt;Temperature:&lt;/b&gt; 10.4&amp;deg;C&lt;br/&gt;&lt;b&gt;Humidity:&lt;/b&gt; 83 %&lt;br/&gt;</summary>
  </entry>
  <entry>
    <title>Tuesday: Sunny. High 13.</title>
    <category term="Weather Forecasts"/>
    <summary type="html">Sunny. High 13.</summary>
  </entry>
  <entry>
    <title>Tuesday night: Clear. Low 8.</title>
    <category term="Weather Forecasts"/>
    <summary type="html"><![CDATA[Clear. 10 percent chance of flurries. Low 8.]]></summary>
  </entry>
</feed>"#;

#[test]
fn parses_a_feed() {
    let w = parse_rss_xml(FEED).expect("the feed parses");
    assert_eq!(w.location, "Toronto");
    assert_eq!(w.last_updated, "2025-10-18T18:00:00Z");
    assert_eq!(w.current.condition, "Mostly Cloudy");
    assert_eq!(w.current.temperature, 104);
    assert_eq!(w.current.humidity, Some(83));
    assert_eq!(w.hourly.len(), 2);
    assert_eq!(w.hourly[1].pop, 10);
    assert_eq!(w.daily.len(), 1);
    assert_eq!(w.daily[0].day_name, "Tuesday");
    assert_eq!(w.daily[0].high, Some(13));
    assert_eq!(w.daily[0].low, Some(8));
    assert_eq!(w.daily[0].pop, Some(10));
    assert!(w.warnings.is_empty());
}

#[test]
fn feed_without_title_is_toronto() {
    let w = parse_rss_xml("<feed><entry><title>Monday: Rain. High 4.</title></entry></feed>")
        .unwrap();
    assert_eq!(w.location, "Toronto");
    assert_eq!(w.daily.len(), 1);
    assert_eq!(w.daily[0].low, None);
}

#[test]
fn malformed_xml_is_an_error() {
    assert!(parse_rss_xml("<feed><entry><title>x</title></feed>").is_err());
}

#[test]
fn text_comes_unescaped() {
    let w = parse_rss_xml(
        "<feed><entry><title>Monday: Rain &amp; snow. High 4.</title></entry></feed>",
    )
    .unwrap();
    assert_eq!(w.hourly[0].condition, "Rain & snow");
    assert_eq!(w.daily[0].icon, "❄️");
}

#[test]
fn error_event_gives_its_message() {
    let evs = vec![XmlEvent::Start("feed".to_string()), XmlEvent::Error("broken".to_string())];
    assert_eq!(weather_from_events(&evs), Err("broken".to_string()));
}

#[test]
fn events_after_end_are_ignored() {
    let evs = vec![
        XmlEvent::Eof,
        XmlEvent::Error("late".to_string()),
    ];
    let w = weather_from_events(&evs).unwrap();
    assert!(w.daily.is_empty());
}
